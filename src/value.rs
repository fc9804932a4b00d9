//! The canonical structured value exchanged with the analysis engine.
use vstd::prelude::*;

verus! {

/// The raw IEEE-754 binary64 encoding of a floating-point number.
pub type FloatBits = u64;

/// Mask selecting the exponent field of a binary64 encoding.
pub const EXPONENT_MASK: u64 = 0x7ff0_0000_0000_0000;

/// A binary64 encoding is finite when its exponent field is not all ones
/// (all ones encodes the infinities and NaN).
pub open spec fn finite_bits(b: FloatBits) -> bool {
    b & EXPONENT_MASK != EXPONENT_MASK
}

/// Tells whether an encoded float is finite.
pub fn is_finite_bits(b: FloatBits) -> (r: bool)
    ensures
        r == finite_bits(b),
{
    b & EXPONENT_MASK != EXPONENT_MASK
}

/// Mathematical model of a canonical value.
pub enum Canon {
    Null,
    Bool(bool),
    Int(i64),
    Float(FloatBits),
    Str(Seq<char>),
    Array(Seq<Canon>),
    Object(Seq<(Seq<char>, Canon)>),
}

/// A structured value: the exchange format between host and engine.
/// Object entries keep their insertion order.
#[derive(Debug)]
pub enum CanonicalValue {
    Null,
    Bool(bool),
    Int(i64),
    Float(FloatBits),
    Str(String),
    Array(Vec<CanonicalValue>),
    Object(Vec<(String, CanonicalValue)>),
}

/// The model of a value, element by element.
pub open spec fn value_model(v: CanonicalValue) -> Canon
    decreases v,
{
    match v {
        CanonicalValue::Null => Canon::Null,
        CanonicalValue::Bool(b) => Canon::Bool(b),
        CanonicalValue::Int(i) => Canon::Int(i),
        CanonicalValue::Float(f) => Canon::Float(f),
        CanonicalValue::Str(s) => Canon::Str(s@),
        CanonicalValue::Array(items) => Canon::Array(
            Seq::new(
                items@.len(),
                |i: int|
                    if 0 <= i < items@.len() {
                        value_model(items@[i])
                    } else {
                        Canon::Null
                    },
            ),
        ),
        CanonicalValue::Object(entries) => Canon::Object(
            Seq::new(
                entries@.len(),
                |i: int|
                    if 0 <= i < entries@.len() {
                        (entries@[i].0@, value_model(entries@[i].1))
                    } else {
                        (Seq::empty(), Canon::Null)
                    },
            ),
        ),
    }
}

impl View for CanonicalValue {
    type V = Canon;

    open spec fn view(&self) -> Canon {
        value_model(*self)
    }
}

/// Every float inside the value is finite.
pub open spec fn canon_finite(c: Canon) -> bool
    decreases c,
{
    match c {
        Canon::Float(f) => finite_bits(f),
        Canon::Array(items) => forall|i: int| 0 <= i < items.len() ==> canon_finite(#[trigger] items[i]),
        Canon::Object(entries) => forall|i: int|
            0 <= i < entries.len() ==> canon_finite(#[trigger] entries[i].1),
        _ => true,
    }
}

/// Collects a sequence of outcomes: the first failure in order, or every success.
pub open spec fn all_ok<T>(rs: Seq<Result<T, Seq<char>>>) -> Result<Seq<T>, Seq<char>>
    decreases rs.len(),
{
    if rs.len() == 0 {
        Ok(Seq::empty())
    } else {
        match all_ok(rs.drop_last()) {
            Err(e) => Err(e),
            Ok(done) => match rs.last() {
                Err(e) => Err(e),
                Ok(x) => Ok(done.push(x)),
            },
        }
    }
}

/// Once a prefix has failed, every extension fails with the same message.
pub proof fn lemma_all_ok_failed_prefix<T>(rs: Seq<Result<T, Seq<char>>>, n: int)
    requires
        0 <= n <= rs.len(),
        all_ok(rs.take(n)) is Err,
    ensures
        all_ok(rs) == all_ok(rs.take(n)),
    decreases rs.len() - n,
{
    if n < rs.len() {
        assert(rs.take(n + 1).drop_last() =~= rs.take(n));
        lemma_all_ok_failed_prefix(rs, n + 1);
    } else {
        assert(rs.take(n) =~= rs);
    }
}

/// A sequence of successes collects to the sequence of their values.
pub proof fn lemma_all_ok_success<T>(rs: Seq<Result<T, Seq<char>>>, xs: Seq<T>)
    requires
        rs.len() == xs.len(),
        forall|i: int| 0 <= i < rs.len() ==> #[trigger] rs[i] == Ok::<T, Seq<char>>(xs[i]),
    ensures
        all_ok(rs) == Ok::<Seq<T>, Seq<char>>(xs),
    decreases rs.len(),
{
    if rs.len() > 0 {
        assert forall|i: int| 0 <= i < rs.drop_last().len() implies #[trigger] rs.drop_last()[i]
            == Ok::<T, Seq<char>>(xs.drop_last()[i]) by {
            assert(rs[i] == Ok::<T, Seq<char>>(xs[i]));
        }
        lemma_all_ok_success(rs.drop_last(), xs.drop_last());
        assert(rs.last() == Ok::<T, Seq<char>>(xs[rs.len() - 1]));
        assert(xs.drop_last().push(xs.last()) =~= xs);
    } else {
        assert(xs =~= Seq::<T>::empty());
    }
}

/// A successful collection has one value per outcome.
pub proof fn lemma_all_ok_len<T>(rs: Seq<Result<T, Seq<char>>>)
    requires
        all_ok(rs) is Ok,
    ensures
        all_ok(rs)->Ok_0.len() == rs.len(),
    decreases rs.len(),
{
    if rs.len() > 0 {
        lemma_all_ok_len(rs.drop_last());
    }
}

/// When every outcome succeeds, each collected value is the matching outcome's value.
pub proof fn lemma_all_ok_values<T>(rs: Seq<Result<T, Seq<char>>>, i: int)
    requires
        all_ok(rs) is Ok,
        0 <= i < rs.len(),
    ensures
        all_ok(rs)->Ok_0.len() == rs.len(),
        rs[i] == Ok::<T, Seq<char>>(all_ok(rs)->Ok_0[i]),
    decreases rs.len(),
{
    if i < rs.len() - 1 {
        lemma_all_ok_values(rs.drop_last(), i);
    } else {
        if rs.len() > 1 {
            lemma_all_ok_values(rs.drop_last(), 0);
        }
    }
}

} // verus!
