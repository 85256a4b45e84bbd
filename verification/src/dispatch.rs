//! Method dispatch: a fixed table from method names to integer-valued
//! functions of the parameter sequence.

use crate::request::{RequestView, RpcRequest};
use crate::text::same_text;
use vstd::prelude::*;
use vstd::string::StringExecFns;

verus! {

/// The sum of a sequence of integers. The empty sequence sums to 0.
pub open spec fn sum(values: Seq<i32>) -> int
    decreases values.len(),
{
    if values.len() == 0 {
        0
    } else {
        sum(values.drop_last()) + values.last()
    }
}

/// Every partial sum lies within `len` times the range of one element.
pub proof fn sum_bounds(values: Seq<i32>)
    ensures
        values.len() * (i32::MIN as int) <= sum(values) <= values.len() * (i32::MAX as int),
    decreases values.len(),
{
    if values.len() > 0 {
        sum_bounds(values.drop_last());
        let n = values.len() as int;
        let low = i32::MIN as int;
        let high = i32::MAX as int;
        assert((n - 1) * low + low == n * low) by (nonlinear_arith);
        assert((n - 1) * high + high == n * high) by (nonlinear_arith);
    }
}

/// Why a dispatch produced no result.
#[derive(Clone, Copy, Debug, PartialEq, Eq, Structural)]
pub enum DispatchError {
    /// The method's value does not fit the result's integer type.
    Overflow,
}

impl DispatchError {
    /// The error in words.
    pub open spec fn text(self) -> Seq<char> {
        "result out of range"@
    }

    /// The error in words, for the transport to report.
    pub fn describe(self) -> (r: String)
        ensures
            r@ == self.text(),
    {
        String::from_str("result out of range")
    }
}

/// What a method's mathematical value becomes as a result: the value itself
/// where the result type can hold it, an overflow otherwise.
pub open spec fn result_of(value: int) -> Result<i32, DispatchError> {
    if i32::MIN <= value <= i32::MAX {
        Ok(value as i32)
    } else {
        Err(DispatchError::Overflow)
    }
}

/// Adds up `values` exactly and reports the total where an `i32` holds it.
pub fn checked_sum(values: &[i32]) -> (r: Result<i32, DispatchError>)
    ensures
        r == result_of(sum(values@)),
{
    let mut total: i128 = 0;
    let mut i: usize = 0;
    while i < values.len()
        invariant
            i <= values.len(),
            total == sum(values@.take(i as int)),
        decreases values.len() - i,
    {
        proof {
            let next = values@.take(i + 1);
            assert(next.drop_last() =~= values@.take(i as int));
            sum_bounds(values@.take(i as int));
            assert(i * (i32::MIN as int) >= usize::MAX * (i32::MIN as int)) by (nonlinear_arith)
                requires
                    i <= usize::MAX,
            ;
            assert(i * (i32::MAX as int) <= usize::MAX * (i32::MAX as int)) by (nonlinear_arith)
                requires
                    i <= usize::MAX,
            ;
        }
        total = total + values[i] as i128;
        i += 1;
    }
    proof {
        assert(values@.take(i as int) =~= values@);
    }
    if total < i32::MIN as i128 || total > i32::MAX as i128 {
        Err(DispatchError::Overflow)
    } else {
        Ok(total as i32)
    }
}

/// The methods of the dispatch table. A name that the table does not hold
/// stands for `Unknown`.
#[derive(Clone, Copy, Debug, PartialEq, Eq, Structural)]
pub enum Method {
    /// `sum`: the sum of the parameters.
    Sum,
    /// Any other name: the value 0, whatever the parameters.
    Unknown,
}

impl Method {
    /// The method that a name stands for.
    pub open spec fn named(name: Seq<char>) -> Method {
        if name == "sum"@ {
            Method::Sum
        } else {
            Method::Unknown
        }
    }

    /// The method's value on a parameter sequence.
    pub open spec fn value(self, params: Seq<i32>) -> int {
        match self {
            Method::Sum => sum(params),
            Method::Unknown => 0,
        }
    }

    /// Looks a name up in the table.
    pub fn lookup(name: &str) -> (m: Method)
        ensures
            m == Method::named(name@),
    {
        if same_text(name, "sum") {
            Method::Sum
        } else {
            Method::Unknown
        }
    }

    /// Computes the method on `params`.
    pub fn apply(self, params: &[i32]) -> (r: Result<i32, DispatchError>)
        ensures
            r == result_of(self.value(params@)),
    {
        match self {
            Method::Sum => checked_sum(params),
            Method::Unknown => Ok(0),
        }
    }
}

/// The result that a request calls for.
pub open spec fn dispatched(request: RequestView) -> Result<i32, DispatchError> {
    result_of(Method::named(request.method).value(request.params))
}

/// A request for `sum` gets the sum of its parameters, wherever the result's
/// integer type holds that sum.
pub proof fn sum_is_dispatched(request: RequestView)
    requires
        request.method == "sum"@,
        i32::MIN <= sum(request.params) <= i32::MAX,
    ensures
        dispatched(request) == Ok::<_, DispatchError>(sum(request.params) as i32),
{
}

/// A request for `sum` without parameters gets 0.
pub proof fn sum_of_nothing_is_zero(request: RequestView)
    requires
        request.method == "sum"@,
        request.params.len() == 0,
    ensures
        dispatched(request) == Ok::<_, DispatchError>(0i32),
{
}

/// A request for a method that the table does not hold gets 0, whatever its
/// parameters: an unknown name is no error.
pub proof fn unknown_method_gets_zero(request: RequestView)
    requires
        request.method != "sum"@,
    ensures
        dispatched(request) == Ok::<_, DispatchError>(0i32),
{
}

/// Computes the result of a request: the method that its name stands for,
/// on its parameters. Nothing but the name and the parameters is read.
pub fn dispatch(request: &RpcRequest) -> (r: Result<i32, DispatchError>)
    ensures
        r == dispatched(request@),
        request.method@ == "sum"@ ==> r == result_of(sum(request.params@)),
        request.method@ != "sum"@ ==> r == Ok::<_, DispatchError>(0i32),
{
    Method::lookup(request.method.as_str()).apply(request.params.as_slice())
}

} // verus!
