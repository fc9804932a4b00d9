//! Host-runtime values: what the host reports about an object it hands over,
//! what the library hands back, and the conversions in both directions.
use vstd::prelude::*;
use crate::value::{
    all_ok, canon_finite, finite_bits, is_finite_bits, lemma_all_ok_failed_prefix,
    lemma_all_ok_len, lemma_all_ok_success, lemma_all_ok_values, Canon, CanonicalValue, FloatBits,
};

verus! {

/// What the host runtime answers about one object when asked, in order,
/// whether it is null and whether it extracts as each primitive type.
/// `repr` is the object's string form, or the host's message when forming it failed.
#[derive(Debug)]
pub struct HostObject {
    pub is_none: bool,
    pub as_bool: Option<bool>,
    pub as_int: Option<i64>,
    pub as_float: Option<FloatBits>,
    pub as_text: Option<String>,
    pub as_size: Option<usize>,
    pub items: HostItems,
    pub repr: Result<String, String>,
}

/// The elements of a host sequence or mapping. A mapping key is its string
/// form, or the host's message when the key is not a string.
#[derive(Debug)]
pub enum HostItems {
    Scalar,
    List(Vec<HostObject>),
    Dict(Vec<(Result<String, String>, HostObject)>),
}

/// A host value as the library builds it.
#[derive(Debug)]
pub enum HostValue {
    Null,
    Bool(bool),
    Int(i128),
    Float(FloatBits),
    Text(String),
    List(Vec<HostValue>),
    Dict(Vec<(String, HostValue)>),
}

/// Mathematical model of a host value.
pub enum Host {
    Null,
    Bool(bool),
    Int(int),
    Float(FloatBits),
    Text(Seq<char>),
    List(Seq<Host>),
    Dict(Seq<(Seq<char>, Host)>),
}

/// The model of a value, element by element.
pub open spec fn host_model(v: HostValue) -> Host
    decreases v,
{
    match v {
        HostValue::Null => Host::Null,
        HostValue::Bool(b) => Host::Bool(b),
        HostValue::Int(i) => Host::Int(i as int),
        HostValue::Float(f) => Host::Float(f),
        HostValue::Text(s) => Host::Text(s@),
        HostValue::List(items) => Host::List(
            Seq::new(
                items@.len(),
                |i: int|
                    if 0 <= i < items@.len() {
                        host_model(items@[i])
                    } else {
                        Host::Null
                    },
            ),
        ),
        HostValue::Dict(entries) => Host::Dict(
            Seq::new(
                entries@.len(),
                |i: int|
                    if 0 <= i < entries@.len() {
                        (entries@[i].0@, host_model(entries@[i].1))
                    } else {
                        (Seq::empty(), Host::Null)
                    },
            ),
        ),
    }
}

impl View for HostValue {
    type V = Host;

    open spec fn view(&self) -> Host {
        host_model(*self)
    }
}

/// Failure to turn a host object into a canonical value, with the host's message.
#[derive(Debug, Clone)]
pub struct ConversionError {
    pub message: String,
}

/// The canonical value of a host object: the first of null, boolean,
/// integer, float, string, list and mapping that the object answers to,
/// and otherwise its string form. Non-finite floats become null.
pub open spec fn canonical_of(h: HostObject) -> Result<Canon, Seq<char>>
    decreases h,
{
    if h.is_none {
        Ok(Canon::Null)
    } else if h.as_bool is Some {
        Ok(Canon::Bool(h.as_bool->0))
    } else if h.as_int is Some {
        Ok(Canon::Int(h.as_int->0))
    } else if h.as_float is Some {
        if finite_bits(h.as_float->0) {
            Ok(Canon::Float(h.as_float->0))
        } else {
            Ok(Canon::Null)
        }
    } else if h.as_text is Some {
        Ok(Canon::Str((h.as_text->0)@))
    } else {
        match h.items {
            HostItems::List(items) => match all_ok(list_results(items@)) {
                Ok(values) => Ok(Canon::Array(values)),
                Err(e) => Err(e),
            },
            HostItems::Dict(entries) => match all_ok(dict_results(entries@)) {
                Ok(values) => Ok(Canon::Object(values)),
                Err(e) => Err(e),
            },
            HostItems::Scalar => match h.repr {
                Ok(s) => Ok(Canon::Str(s@)),
                Err(e) => Err(e@),
            },
        }
    }
}

/// The outcome for each element of a host list.
pub open spec fn list_results(items: Seq<HostObject>) -> Seq<Result<Canon, Seq<char>>>
    decreases items,
{
    Seq::new(
        items.len(),
        |i: int|
            if 0 <= i < items.len() {
                canonical_of(items[i])
            } else {
                Ok(Canon::Null)
            },
    )
}

/// The outcome for each entry of a host mapping.
pub open spec fn dict_results(entries: Seq<(Result<String, String>, HostObject)>) -> Seq<
    Result<(Seq<char>, Canon), Seq<char>>,
>
    decreases entries,
{
    Seq::new(
        entries.len(),
        |i: int|
            if 0 <= i < entries.len() {
                entry_of(entries[i].0, canonical_of(entries[i].1))
            } else {
                Err(Seq::empty())
            },
    )
}

/// One mapping entry: the key's failure first, then the value's.
pub open spec fn entry_of(key: Result<String, String>, value: Result<Canon, Seq<char>>) -> Result<
    (Seq<char>, Canon),
    Seq<char>,
> {
    match key {
        Err(e) => Err(e@),
        Ok(k) => match value {
            Err(e) => Err(e),
            Ok(v) => Ok((k@, v)),
        },
    }
}

/// The host value built from a canonical value: same shape, same order.
pub open spec fn host_of(c: Canon) -> Host
    decreases c,
{
    match c {
        Canon::Null => Host::Null,
        Canon::Bool(b) => Host::Bool(b),
        Canon::Int(i) => Host::Int(i as int),
        Canon::Float(f) => Host::Float(f),
        Canon::Str(s) => Host::Text(s),
        Canon::Array(items) => Host::List(
            Seq::new(
                items.len(),
                |i: int|
                    if 0 <= i < items.len() {
                        host_of(items[i])
                    } else {
                        Host::Null
                    },
            ),
        ),
        Canon::Object(entries) => Host::Dict(
            Seq::new(
                entries.len(),
                |i: int|
                    if 0 <= i < entries.len() {
                        (entries[i].0, host_of(entries[i].1))
                    } else {
                        (Seq::empty(), Host::Null)
                    },
            ),
        ),
    }
}

/// Converts a host object into a canonical value, or reports the host's message
/// for a mapping key that is not a string or an object without a string form.
pub fn to_canonical(h: &HostObject) -> (r: Result<CanonicalValue, ConversionError>)
    ensures
        match r {
            Ok(v) => canonical_of(*h) == Ok::<Canon, Seq<char>>(v@),
            Err(e) => canonical_of(*h) == Err::<Canon, Seq<char>>(e.message@),
        },
    decreases h,
{
    if h.is_none {
        return Ok(CanonicalValue::Null);
    }
    if let Some(b) = h.as_bool {
        return Ok(CanonicalValue::Bool(b));
    }
    if let Some(i) = h.as_int {
        return Ok(CanonicalValue::Int(i));
    }
    if let Some(f) = h.as_float {
        if is_finite_bits(f) {
            return Ok(CanonicalValue::Float(f));
        } else {
            return Ok(CanonicalValue::Null);
        }
    }
    if let Some(s) = &h.as_text {
        return Ok(CanonicalValue::Str(s.clone()));
    }
    match &h.items {
        HostItems::List(items) => {
            let ghost rs = list_results(items@);
            assert(canonical_of(*h) == match all_ok(rs) {
                Ok(values) => Ok(Canon::Array(values)),
                Err(e) => Err(e),
            });
            let mut out: Vec<CanonicalValue> = Vec::new();
            let ghost mut vals: Seq<Canon> = Seq::empty();
            let mut i: usize = 0;
            assert(rs.take(0) =~= Seq::empty());
            while i < items.len()
                invariant
                    i <= items@.len(),
                    h.items == HostItems::List(*items),
                    canonical_of(*h) == match all_ok(rs) {
                        Ok(values) => Ok(Canon::Array(values)),
                        Err(e) => Err::<Canon, Seq<char>>(e),
                    },
                    out@.len() == i,
                    rs.len() == items@.len(),
                    forall|j: int| 0 <= j < rs.len() ==> #[trigger] rs[j] == canonical_of(items@[j]),
                    vals.len() == i,
                    forall|j: int| 0 <= j < i ==> out@[j]@ == #[trigger] vals[j],
                    all_ok(rs.take(i as int)) == Ok::<Seq<Canon>, Seq<char>>(vals),
                decreases items@.len() - i,
            {
                assert(rs.take(i + 1).drop_last() =~= rs.take(i as int));
                proof {
                    assert(decreases_to!(*h => h.items));
                    assert(h.items->List_0 == *items);
                    assert(decreases_to!(h.items => h.items->List_0));
                    assert(decreases_to!(*items => items[i as int]));
                }
                match to_canonical(&items[i]) {
                    Ok(c) => {
                        assert(rs.take(i + 1).last() == rs[i as int]);
                        proof {
                            vals = vals.push(c@);
                        }
                        out.push(c);
                        i = i + 1;
                    },
                    Err(e) => {
                        proof {
                            lemma_all_ok_failed_prefix(rs, i + 1);
                        }
                        return Err(e);
                    },
                }
            }
            assert(rs.take(i as int) =~= rs);
            let r = CanonicalValue::Array(out);
            assert(r@->Array_0 =~= vals);
            Ok(r)
        },
        HostItems::Dict(entries) => {
            let ghost rs = dict_results(entries@);
            assert(canonical_of(*h) == match all_ok(rs) {
                Ok(values) => Ok(Canon::Object(values)),
                Err(e) => Err(e),
            });
            let mut out: Vec<(String, CanonicalValue)> = Vec::new();
            let ghost mut vals: Seq<(Seq<char>, Canon)> = Seq::empty();
            let mut i: usize = 0;
            assert(rs.take(0) =~= Seq::empty());
            while i < entries.len()
                invariant
                    i <= entries@.len(),
                    h.items == HostItems::Dict(*entries),
                    canonical_of(*h) == match all_ok(rs) {
                        Ok(values) => Ok(Canon::Object(values)),
                        Err(e) => Err::<Canon, Seq<char>>(e),
                    },
                    out@.len() == i,
                    rs.len() == entries@.len(),
                    forall|j: int|
                        0 <= j < rs.len() ==> #[trigger] rs[j] == entry_of(
                            entries@[j].0,
                            canonical_of(entries@[j].1),
                        ),
                    vals.len() == i,
                    forall|j: int| 0 <= j < i ==> #[trigger] vals[j] == (out@[j].0@, out@[j].1@),
                    all_ok(rs.take(i as int)) == Ok::<Seq<(Seq<char>, Canon)>, Seq<char>>(vals),
                decreases entries@.len() - i,
            {
                assert(rs.take(i + 1).drop_last() =~= rs.take(i as int));
                let key = match &entries[i].0 {
                    Ok(k) => k.clone(),
                    Err(m) => {
                        proof {
                            lemma_all_ok_failed_prefix(rs, i + 1);
                        }
                        return Err(ConversionError { message: m.clone() });
                    },
                };
                proof {
                    assert(decreases_to!(*h => h.items));
                    assert(h.items->Dict_0 == *entries);
                    assert(decreases_to!(h.items => h.items->Dict_0));
                    assert(decreases_to!(*entries => entries[i as int]));
                    assert(decreases_to!(entries[i as int] => entries[i as int].1));
                }
                match to_canonical(&entries[i].1) {
                    Ok(c) => {
                        assert(rs.take(i + 1).last() == rs[i as int]);
                        proof {
                            vals = vals.push((key@, c@));
                        }
                        out.push((key, c));
                        i = i + 1;
                    },
                    Err(e) => {
                        proof {
                            lemma_all_ok_failed_prefix(rs, i + 1);
                        }
                        return Err(e);
                    },
                }
            }
            assert(rs.take(i as int) =~= rs);
            let r = CanonicalValue::Object(out);
            assert(r@->Object_0 =~= vals);
            Ok(r)
        },
        HostItems::Scalar => match &h.repr {
            Ok(s) => Ok(CanonicalValue::Str(s.clone())),
            Err(m) => Err(ConversionError { message: m.clone() }),
        },
    }
}

/// Builds the host value of a canonical value: same shape, same order.
pub fn to_host(v: &CanonicalValue) -> (r: HostValue)
    ensures
        r@ == host_of(v@),
    decreases v,
{
    match v {
        CanonicalValue::Null => HostValue::Null,
        CanonicalValue::Bool(b) => HostValue::Bool(*b),
        CanonicalValue::Int(i) => HostValue::Int(*i as i128),
        CanonicalValue::Float(f) => HostValue::Float(*f),
        CanonicalValue::Str(s) => HostValue::Text(s.clone()),
        CanonicalValue::Array(items) => {
            let mut out: Vec<HostValue> = Vec::new();
            let ghost mut vals: Seq<Host> = Seq::empty();
            let mut i: usize = 0;
            while i < items.len()
                invariant
                    i <= items@.len(),
                    *v == CanonicalValue::Array(*items),
                    out@.len() == i,
                    vals.len() == i,
                    forall|j: int| 0 <= j < i ==> out@[j]@ == #[trigger] vals[j],
                    forall|j: int| 0 <= j < i ==> #[trigger] vals[j] == host_of(items@[j]@),
                decreases items@.len() - i,
            {
                proof {
                    assert(decreases_to!(*v => v->Array_0));
                    assert(decreases_to!(*items => items[i as int]));
                }
                let x = to_host(&items[i]);
                proof {
                    vals = vals.push(x@);
                }
                out.push(x);
                i = i + 1;
            }
            let r = HostValue::List(out);
            assert(r@->List_0 =~= vals);
            assert(host_of(v@)->List_0 =~= vals);
            r
        },
        CanonicalValue::Object(entries) => {
            let mut out: Vec<(String, HostValue)> = Vec::new();
            let ghost mut vals: Seq<(Seq<char>, Host)> = Seq::empty();
            let mut i: usize = 0;
            while i < entries.len()
                invariant
                    i <= entries@.len(),
                    *v == CanonicalValue::Object(*entries),
                    out@.len() == i,
                    vals.len() == i,
                    forall|j: int| 0 <= j < i ==> #[trigger] vals[j] == (out@[j].0@, out@[j].1@),
                    forall|j: int|
                        0 <= j < i ==> #[trigger] vals[j] == (
                            entries@[j].0@,
                            host_of(entries@[j].1@),
                        ),
                decreases entries@.len() - i,
            {
                proof {
                    assert(decreases_to!(*v => v->Object_0));
                    assert(decreases_to!(*entries => entries[i as int]));
                    assert(decreases_to!(entries[i as int] => entries[i as int].1));
                }
                let x = to_host(&entries[i].1);
                let k = entries[i].0.clone();
                proof {
                    vals = vals.push((k@, x@));
                }
                out.push((k, x));
                i = i + 1;
            }
            let r = HostValue::Dict(out);
            assert(r@->Dict_0 =~= vals);
            assert(host_of(v@)->Dict_0 =~= vals);
            r
        },
    }
}

/// How the host answers about an object that it built from the host value `x`:
/// a boolean extracts as a boolean only, an integer as an integer but not a boolean,
/// a float as a float but neither, a string as text only, and a list or mapping
/// as none of those, with its elements and string keys in order.
pub open spec fn conforms(h: HostObject, x: Host) -> bool
    decreases x,
{
    match x {
        Host::Null => h.is_none,
        Host::Bool(b) => !h.is_none && h.as_bool == Some(b),
        Host::Int(n) => {
            &&& !h.is_none
            &&& h.as_bool is None
            &&& i64::MIN <= n <= i64::MAX
            &&& h.as_int == Some(n as i64)
        },
        Host::Float(f) => {
            &&& !h.is_none
            &&& h.as_bool is None
            &&& h.as_int is None
            &&& h.as_float == Some(f)
        },
        Host::Text(t) => {
            &&& !h.is_none
            &&& h.as_bool is None
            &&& h.as_int is None
            &&& h.as_float is None
            &&& h.as_text is Some
            &&& (h.as_text->0)@ == t
        },
        Host::List(xs) => {
            &&& no_scalar_form(h)
            &&& h.items is List
            &&& (h.items->List_0)@.len() == xs.len()
            &&& forall|i: int|
                0 <= i < xs.len() ==> conforms((h.items->List_0)@[i], #[trigger] xs[i])
        },
        Host::Dict(es) => {
            &&& no_scalar_form(h)
            &&& h.items is Dict
            &&& (h.items->Dict_0)@.len() == es.len()
            &&& forall|i: int|
                0 <= i < es.len() ==> {
                    let (key, item) = (h.items->Dict_0)@[i];
                    &&& key is Ok
                    &&& (key->Ok_0)@ == (#[trigger] es[i]).0
                    &&& conforms(item, es[i].1)
                }
        },
    }
}

/// The object is not null and extracts as none of boolean, integer, float or text.
pub open spec fn no_scalar_form(h: HostObject) -> bool {
    &&& !h.is_none
    &&& h.as_bool is None
    &&& h.as_int is None
    &&& h.as_float is None
    &&& h.as_text is None
}

/// Converting back is lossless: for a canonical value with finite floats, any host
/// object that answers as the host value built from it converts to the same value.
pub proof fn lemma_round_trip(v: Canon, h: HostObject)
    requires
        canon_finite(v),
        conforms(h, host_of(v)),
    ensures
        canonical_of(h) == Ok::<Canon, Seq<char>>(v),
    decreases v,
{
    match v {
        Canon::Array(xs) => {
            let ys = (h.items->List_0)@;
            assert forall|i: int| 0 <= i < xs.len() implies #[trigger] list_results(ys)[i]
                == Ok::<Canon, Seq<char>>(xs[i]) by {
                assert(host_of(v)->List_0[i] == host_of(xs[i]));
                lemma_round_trip(xs[i], ys[i]);
            }
            lemma_all_ok_success(list_results(ys), xs);
        },
        Canon::Object(es) => {
            let ys = (h.items->Dict_0)@;
            assert forall|i: int| 0 <= i < es.len() implies #[trigger] dict_results(ys)[i]
                == Ok::<(Seq<char>, Canon), Seq<char>>(es[i]) by {
                assert(host_of(v)->Dict_0[i] == (es[i].0, host_of(es[i].1)));
                lemma_round_trip(es[i].1, ys[i].1);
            }
            lemma_all_ok_success(dict_results(ys), es);
        },
        _ => {},
    }
}

/// Every value that conversion produces holds finite floats only.
pub proof fn lemma_canonical_is_finite(h: HostObject)
    requires
        canonical_of(h) is Ok,
    ensures
        canon_finite(canonical_of(h)->Ok_0),
    decreases h,
{
    if no_scalar_form(h) {
        match h.items {
            HostItems::List(items) => {
                let rs = list_results(items@);
                let xs = all_ok(rs)->Ok_0;
                lemma_all_ok_len(rs);
                assert forall|i: int| 0 <= i < xs.len() implies canon_finite(#[trigger] xs[i]) by {
                    lemma_all_ok_values(rs, i);
                    assert(decreases_to!(items => items[i]));
                    lemma_canonical_is_finite(items@[i]);
                }
            },
            HostItems::Dict(entries) => {
                let rs = dict_results(entries@);
                let xs = all_ok(rs)->Ok_0;
                lemma_all_ok_len(rs);
                assert forall|i: int| 0 <= i < xs.len() implies canon_finite(
                    (#[trigger] xs[i]).1,
                ) by {
                    lemma_all_ok_values(rs, i);
                    assert(decreases_to!(entries => entries[i]));
                    lemma_canonical_is_finite(entries@[i].1);
                }
            },
            HostItems::Scalar => {},
        }
    }
}

/// Conversion is idempotent after the first pass: whatever a host object converts
/// to, the host value built from that result converts back to the same value.
pub proof fn lemma_conversion_idempotent(first: HostObject, again: HostObject)
    requires
        canonical_of(first) is Ok,
        conforms(again, host_of(canonical_of(first)->Ok_0)),
    ensures
        canonical_of(again) == canonical_of(first),
{
    lemma_canonical_is_finite(first);
    lemma_round_trip(canonical_of(first)->Ok_0, again);
}

/// A host boolean converts to a boolean, whatever it would also answer as a number.
pub proof fn lemma_bool_before_numeric(h: HostObject)
    requires
        !h.is_none,
        h.as_bool is Some,
    ensures
        canonical_of(h) == Ok::<Canon, Seq<char>>(Canon::Bool(h.as_bool->0)),
{
}

/// A non-finite float (NaN or an infinity) converts to null, and null goes back
/// to the host's null.
pub proof fn lemma_non_finite_is_null(h: HostObject)
    requires
        !h.is_none,
        h.as_bool is None,
        h.as_int is None,
        h.as_float is Some,
        !finite_bits(h.as_float->0),
    ensures
        canonical_of(h) == Ok::<Canon, Seq<char>>(Canon::Null),
        host_of(Canon::Null) == Host::Null,
{
}

} // verus!
