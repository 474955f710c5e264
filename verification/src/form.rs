//! The `application/x-www-form-urlencoded` bodies the POST handlers
//! accept. A body is `&`-separated components; each component is a key and
//! a value around the first `=`; keys and values are percent-decoded, with
//! `+` standing for a space. On top of that sit the two typed forms: the
//! new-alert form (`cadence`, `metric`, `threshold`) and the edit form,
//! whose `action` field selects an update or a delete.

use vstd::prelude::*;
use vstd::string::StringExecFns;
use crate::alert::{spec_parse_cadence, spec_parse_metric, AlertCadence, AlertMetric};
use crate::bytes_util::{bytes_of, spec_find, find_byte, str_bytes};
use crate::monitor::{AlertHeuristics, MonitorThreshold};
use crate::variance::{spec_parse_variance, Variance};

verus! {

/// `b` is a hexadecimal digit of either case.
pub open spec fn is_hex_digit(b: u8) -> bool {
    (48 <= b <= 57) || (97 <= b <= 102) || (65 <= b <= 70)
}

/// Value of a hexadecimal digit of either case.
pub open spec fn hex_digit_val(b: u8) -> u8 {
    if 48 <= b <= 57 {
        (b - 48) as u8
    } else if 97 <= b <= 102 {
        (b - 87) as u8
    } else if 65 <= b <= 70 {
        (b - 55) as u8
    } else {
        0
    }
}

/// Percent-decode `s` from position `i` on: `+` becomes a space, `%xy`
/// becomes the byte the two hex digits spell, and a `%` not followed by
/// two hex digits makes the whole text invalid.
pub open spec fn spec_decode_from(s: Seq<u8>, i: int) -> Option<Seq<u8>>
    decreases s.len() - i when 0 <= i <= s.len()
{
    if i >= s.len() {
        Some(Seq::empty())
    } else if s[i] == 43 {
        match spec_decode_from(s, i + 1) {
            Some(t) => Some(seq![32u8] + t),
            None => None,
        }
    } else if s[i] == 37 {
        if i + 3 <= s.len() && is_hex_digit(s[i + 1]) && is_hex_digit(s[i + 2]) {
            match spec_decode_from(s, i + 3) {
                Some(t) => Some(
                    seq![(hex_digit_val(s[i + 1]) * 16 + hex_digit_val(s[i + 2])) as u8] + t,
                ),
                None => None,
            }
        } else {
            None
        }
    } else {
        match spec_decode_from(s, i + 1) {
            Some(t) => Some(seq![s[i]] + t),
            None => None,
        }
    }
}

/// Percent-decode a component. Fails exactly when the text has a stray
/// `%`.
pub fn decode(s: &[u8]) -> (r: Option<Vec<u8>>)
    ensures
        match r {
            Some(v) => spec_decode_from(s@, 0) == Some(v@),
            None => spec_decode_from(s@, 0) is None,
        },
{
    let n: usize = s.len();
    let mut out: Vec<u8> = Vec::new();
    let mut i: usize = 0;
    while i < n
        invariant
            n == s@.len(),
            0 <= i <= n,
            match spec_decode_from(s@, i as int) {
                Some(t) => spec_decode_from(s@, 0) == Some(out@ + t),
                None => spec_decode_from(s@, 0) is None,
            },
        decreases n - i,
    {
        let b: u8 = s[i];
        let ghost pre = out@;
        if b == 43 {
            out.push(32);
            proof {
                if let Some(t2) = spec_decode_from(s@, i + 1) {
                    assert(out@ + t2 =~= pre + (seq![32u8] + t2));
                }
            }
            i = i + 1;
        } else if b == 37 {
            if n - i < 3 {
                return None;
            }
            let h1: u8 = s[i + 1];
            let h2: u8 = s[i + 2];
            let ok1 = (48 <= h1 && h1 <= 57) || (97 <= h1 && h1 <= 102) || (65 <= h1 && h1 <= 70);
            let ok2 = (48 <= h2 && h2 <= 57) || (97 <= h2 && h2 <= 102) || (65 <= h2 && h2 <= 70);
            if !ok1 || !ok2 {
                return None;
            }
            let v1: u8 = if h1 <= 57 {
                h1 - 48
            } else if h1 >= 97 {
                h1 - 87
            } else {
                h1 - 55
            };
            let v2: u8 = if h2 <= 57 {
                h2 - 48
            } else if h2 >= 97 {
                h2 - 87
            } else {
                h2 - 55
            };
            assert(v1 == hex_digit_val(s@[i + 1]) && v1 < 16);
            assert(v2 == hex_digit_val(s@[i + 2]) && v2 < 16);
            out.push(v1 * 16 + v2);
            proof {
                if let Some(t2) = spec_decode_from(s@, i + 3) {
                    assert(out@ + t2 =~= pre + (seq![
                        (hex_digit_val(s@[i + 1]) * 16 + hex_digit_val(s@[i + 2])) as u8,
                    ] + t2));
                }
            }
            i = i + 3;
        } else {
            out.push(b);
            proof {
                if let Some(t2) = spec_decode_from(s@, i + 1) {
                    assert(out@ + t2 =~= pre + (seq![s@[i as int]] + t2));
                }
            }
            i = i + 1;
        }
    }
    proof {
        assert(out@ + Seq::<u8>::empty() =~= out@);
    }
    Some(out)
}

/// The components of `s` from position `i` on, split on `&`; `cur` is the
/// piece read so far.
pub open spec fn spec_components(s: Seq<u8>, i: int, cur: Seq<u8>) -> Seq<Seq<u8>>
    decreases s.len() - i when 0 <= i <= s.len()
{
    if i >= s.len() {
        seq![cur]
    } else if s[i] == 38 {
        seq![cur] + spec_components(s, i + 1, Seq::empty())
    } else {
        spec_components(s, i + 1, cur.push(s[i]))
    }
}

/// Split a body on `&`.
pub fn split_components(s: &[u8]) -> (r: Vec<Vec<u8>>)
    ensures
        r.deep_view() == spec_components(s@, 0, Seq::<u8>::empty()),
{
    let n: usize = s.len();
    let mut comps: Vec<Vec<u8>> = Vec::new();
    let mut cur: Vec<u8> = Vec::new();
    let mut i: usize = 0;
    while i < n
        invariant
            n == s@.len(),
            0 <= i <= n,
            spec_components(s@, 0, Seq::<u8>::empty()) == comps.deep_view() + spec_components(
                s@,
                i as int,
                cur@,
            ),
        decreases n - i,
    {
        let b: u8 = s[i];
        if b == 38 {
            let ghost pre = comps.deep_view();
            let ghost cur_pre = cur@;
            comps.push(cur);
            cur = Vec::new();
            proof {
                assert(comps.deep_view() =~~= pre.push(cur_pre));
                assert(comps.deep_view() + spec_components(s@, i + 1, Seq::<u8>::empty()) =~~= pre
                    + (seq![cur_pre] + spec_components(s@, i + 1, Seq::<u8>::empty())));
            }
        } else {
            cur.push(b);
        }
        i = i + 1;
    }
    let ghost pre = comps.deep_view();
    let ghost cur_pre = cur@;
    comps.push(cur);
    proof {
        assert(comps.deep_view() =~~= pre.push(cur_pre));
        assert(pre.push(cur_pre) =~= pre + seq![cur_pre]);
    }
    comps
}

/// The decoded key/value pair of one component: the part before the first
/// `=` and the part after it (empty when there is no `=`), each
/// percent-decoded.
pub open spec fn spec_decode_pair(c: Seq<u8>) -> Option<(Seq<u8>, Seq<u8>)> {
    let e = spec_find(c, 61, 0);
    let k = spec_decode_from(c.subrange(0, e), 0);
    let v = if e == c.len() {
        Some(Seq::<u8>::empty())
    } else {
        spec_decode_from(c.subrange(e + 1, c.len() as int), 0)
    };
    match (k, v) {
        (Some(k), Some(v)) => Some((k, v)),
        _ => None,
    }
}

/// The decoded pairs of the components from `i` on; `None` when any
/// component fails to decode.
pub open spec fn spec_decode_pairs(cs: Seq<Seq<u8>>, i: int) -> Option<Seq<(Seq<u8>, Seq<u8>)>>
    decreases cs.len() - i when 0 <= i <= cs.len()
{
    if i >= cs.len() {
        Some(Seq::empty())
    } else {
        match (spec_decode_pair(cs[i]), spec_decode_pairs(cs, i + 1)) {
            (Some(p), Some(r)) => Some(seq![p] + r),
            _ => None,
        }
    }
}

/// What a whole body parses to: its decoded key/value pairs, in order.
pub open spec fn spec_parse_form(s: Seq<u8>) -> Option<Seq<(Seq<u8>, Seq<u8>)>> {
    spec_decode_pairs(spec_components(s, 0, Seq::empty()), 0)
}

/// Split one component at its first `=` and decode both halves.
fn decode_pair(c: &Vec<u8>) -> (r: Option<(Vec<u8>, Vec<u8>)>)
    ensures
        match r {
            Some(p) => spec_decode_pair(c@) == Some((p.0@, p.1@)),
            None => spec_decode_pair(c@) is None,
        },
{
    let n: usize = c.len();
    let e: usize = find_byte(c.as_slice(), 61);
    let key_part = vstd::slice::slice_subrange(c.as_slice(), 0, e);
    let k = match decode(key_part) {
        Some(k) => k,
        None => {
            return None;
        },
    };
    if e == n {
        return Some((k, Vec::new()));
    }
    let val_part = vstd::slice::slice_subrange(c.as_slice(), e + 1, n);
    let v = match decode(val_part) {
        Some(v) => v,
        None => {
            return None;
        },
    };
    Some((k, v))
}

/// Parse a body into its decoded pairs. Returns `None` exactly when some
/// component has a stray `%`.
pub fn parse_form(s: &[u8]) -> (r: Option<Vec<(Vec<u8>, Vec<u8>)>>)
    ensures
        match r {
            Some(ps) => spec_parse_form(s@) == Some(ps.deep_view()),
            None => spec_parse_form(s@) is None,
        },
{
    let comps = split_components(s);
    let ghost cv = comps.deep_view();
    let n: usize = comps.len();
    let mut out: Vec<(Vec<u8>, Vec<u8>)> = Vec::new();
    let mut i: usize = 0;
    assert(cv.len() == n) by {
        assert(comps.deep_view().len() == comps@.len());
    }
    while i < n
        invariant
            n == comps@.len(),
            cv == comps.deep_view(),
            cv == spec_components(s@, 0, Seq::<u8>::empty()),
            cv.len() == n,
            0 <= i <= n,
            match spec_decode_pairs(cv, i as int) {
                Some(t) => spec_decode_pairs(cv, 0) == Some(out.deep_view() + t),
                None => spec_decode_pairs(cv, 0) is None,
            },
        decreases n - i,
    {
        assert(comps@[i as int].deep_view() == cv[i as int]);
        assert(comps@[i as int]@ =~~= cv[i as int]);
        let p = match decode_pair(&comps[i]) {
            Some(p) => p,
            None => {
                proof {
                    assert(spec_decode_pair(cv[i as int]) is None);
                    assert(spec_decode_pairs(cv, i as int) is None);
                }
                return None;
            },
        };
        let ghost pre = out.deep_view();
        let ghost pv = (p.0@, p.1@);
        out.push(p);
        proof {
            assert(out.deep_view() =~~= pre.push(pv));
            if let Some(t2) = spec_decode_pairs(cv, i + 1) {
                assert(out.deep_view() + t2 =~= pre + (seq![pv] + t2));
            }
        }
        i = i + 1;
    }
    proof {
        assert(out.deep_view() + Seq::<(Seq<u8>, Seq<u8>)>::empty() =~= out.deep_view());
    }
    Some(out)
}

/// The value of the first pair whose key is `key`, from `i` on.
pub open spec fn spec_field(pairs: Seq<(Seq<u8>, Seq<u8>)>, key: Seq<u8>, i: int) -> Option<
    Seq<u8>,
>
    decreases pairs.len() - i when 0 <= i <= pairs.len()
{
    if i >= pairs.len() {
        None
    } else if pairs[i].0 == key {
        Some(pairs[i].1)
    } else {
        spec_field(pairs, key, i + 1)
    }
}

/// Look a field up by key; the first occurrence wins.
pub fn get_field(pairs: &Vec<(Vec<u8>, Vec<u8>)>, key: &[u8]) -> (r: Option<Vec<u8>>)
    ensures
        match r {
            Some(v) => spec_field(pairs.deep_view(), key@, 0) == Some(v@),
            None => spec_field(pairs.deep_view(), key@, 0) is None,
        },
{
    let ghost pv = pairs.deep_view();
    let n: usize = pairs.len();
    let mut i: usize = 0;
    assert(pv.len() == n) by {
        assert(pairs.deep_view().len() == pairs@.len());
    }
    while i < n
        invariant
            n == pairs@.len(),
            pv == pairs.deep_view(),
            pv.len() == n,
            0 <= i <= n,
            spec_field(pv, key@, 0) == spec_field(pv, key@, i as int),
        decreases n - i,
    {
        assert(pairs@[i as int].deep_view() == pv[i as int]);
        assert(pv[i as int].0 =~~= pairs@[i as int].0@);
        assert(pv[i as int].1 =~~= pairs@[i as int].1@);
        if crate::bytes_util::bytes_eq(pairs[i].0.as_slice(), key) {
            assert(pv[i as int].0 == key@);
            let v = vstd::slice::slice_to_vec(pairs[i].1.as_slice());
            assert(pv[i as int].1 == v@);
            return Some(v);
        }
        assert(pv[i as int].0 != key@);
        i = i + 1;
    }
    None
}

/// Why a submitted form is rejected. A malformed body gets a plain 400;
/// the three value errors are recoverable validation failures, answered
/// with a 400 page that carries a user-facing message.
#[derive(Clone, Copy, Debug, PartialEq, Eq, Structural)]
pub enum FormError {
    /// The body is not a well-formed form, a required field is missing,
    /// or the action tag is unknown: the handler answers with a plain 400.
    Malformed,
    /// The cadence field names no known cadence.
    InvalidCadence,
    /// The metric field names no known metric.
    InvalidMetric,
    /// The threshold field is not a decimal literal.
    InvalidThreshold,
}

/// The user-facing message of each form error.
pub open spec fn spec_form_error_message(e: FormError) -> Seq<char> {
    match e {
        FormError::Malformed => "The form could not be read."@,
        FormError::InvalidCadence => "The cadence is not valid."@,
        FormError::InvalidMetric => "The metric is not valid."@,
        FormError::InvalidThreshold => "The threshold is not a valid number."@,
    }
}

impl FormError {
    /// The user-facing message of this error.
    pub fn message(&self) -> (r: String)
        ensures
            r@ == spec_form_error_message(*self),
    {
        match self {
            FormError::Malformed => String::from_str("The form could not be read."),
            FormError::InvalidCadence => String::from_str("The cadence is not valid."),
            FormError::InvalidMetric => String::from_str("The metric is not valid."),
            FormError::InvalidThreshold => String::from_str(
                "The threshold is not a valid number.",
            ),
        }
    }
}

/// The alert the `cadence`, `metric` and `threshold` fields of a parsed
/// form denote.
pub open spec fn spec_alert_fields(pairs: Seq<(Seq<u8>, Seq<u8>)>) -> Result<
    AlertHeuristics,
    FormError,
> {
    match spec_field(pairs, bytes_of("cadence"), 0) {
        None => Err(FormError::Malformed),
        Some(c) => match spec_field(pairs, bytes_of("metric"), 0) {
            None => Err(FormError::Malformed),
            Some(m) => match spec_field(pairs, bytes_of("threshold"), 0) {
                None => Err(FormError::Malformed),
                Some(t) => match spec_parse_cadence(c) {
                    None => Err(FormError::InvalidCadence),
                    Some(cadence) => match spec_parse_metric(m) {
                        None => Err(FormError::InvalidMetric),
                        Some(metric) => match spec_parse_variance(t) {
                            None => Err(FormError::InvalidThreshold),
                            Some(variance) => Ok(
                                AlertHeuristics {
                                    cadence,
                                    threshold: MonitorThreshold { metric, variance },
                                },
                            ),
                        },
                    },
                },
            },
        },
    }
}

/// Read the three alert fields out of parsed pairs.
fn alert_fields(pairs: &Vec<(Vec<u8>, Vec<u8>)>) -> (r: Result<AlertHeuristics, FormError>)
    ensures
        r == spec_alert_fields(pairs.deep_view()),
{
    let c = match get_field(pairs, str_bytes("cadence").as_slice()) {
        Some(c) => c,
        None => {
            return Err(FormError::Malformed);
        },
    };
    let m = match get_field(pairs, str_bytes("metric").as_slice()) {
        Some(m) => m,
        None => {
            return Err(FormError::Malformed);
        },
    };
    let t = match get_field(pairs, str_bytes("threshold").as_slice()) {
        Some(t) => t,
        None => {
            return Err(FormError::Malformed);
        },
    };
    let cadence = match AlertCadence::parse(c.as_slice()) {
        Some(x) => x,
        None => {
            return Err(FormError::InvalidCadence);
        },
    };
    let metric = match AlertMetric::parse(m.as_slice()) {
        Some(x) => x,
        None => {
            return Err(FormError::InvalidMetric);
        },
    };
    let variance = match Variance::parse(t.as_slice()) {
        Some(x) => x,
        None => {
            return Err(FormError::InvalidThreshold);
        },
    };
    Ok(AlertHeuristics { cadence, threshold: MonitorThreshold { metric, variance } })
}

/// What the new-alert form denotes: the alert of its three fields.
pub open spec fn spec_new_alert_form(body: Seq<u8>) -> Result<AlertHeuristics, FormError> {
    match spec_parse_form(body) {
        None => Err(FormError::Malformed),
        Some(pairs) => spec_alert_fields(pairs),
    }
}

/// Parse the body of the new-alert form.
pub fn parse_new_alert_form(body: &[u8]) -> (r: Result<AlertHeuristics, FormError>)
    ensures
        r == spec_new_alert_form(body@),
{
    let pairs = match parse_form(body) {
        Some(p) => p,
        None => {
            return Err(FormError::Malformed);
        },
    };
    alert_fields(&pairs)
}

/// What the edit form asks for.
#[derive(Clone, Copy, Debug, PartialEq, Eq, Structural)]
pub enum EditAction {
    /// Overwrite the alert's configuration.
    UpdateAlert(AlertHeuristics),
    /// Remove the alert.
    Delete,
}

/// What the edit form denotes: its `action` field selects a delete or an
/// update carrying the three alert fields.
pub open spec fn spec_edit_form(body: Seq<u8>) -> Result<EditAction, FormError> {
    match spec_parse_form(body) {
        None => Err(FormError::Malformed),
        Some(pairs) => match spec_field(pairs, bytes_of("action"), 0) {
            None => Err(FormError::Malformed),
            Some(a) => if a == bytes_of("delete") {
                Ok(EditAction::Delete)
            } else if a == bytes_of("update_alert") {
                match spec_alert_fields(pairs) {
                    Ok(alert) => Ok(EditAction::UpdateAlert(alert)),
                    Err(e) => Err(e),
                }
            } else {
                Err(FormError::Malformed)
            },
        },
    }
}

/// Parse the body of the edit form.
pub fn parse_edit_form(body: &[u8]) -> (r: Result<EditAction, FormError>)
    ensures
        r == spec_edit_form(body@),
{
    let pairs = match parse_form(body) {
        Some(p) => p,
        None => {
            return Err(FormError::Malformed);
        },
    };
    let a = match get_field(&pairs, str_bytes("action").as_slice()) {
        Some(a) => a,
        None => {
            return Err(FormError::Malformed);
        },
    };
    if crate::bytes_util::bytes_eq(a.as_slice(), str_bytes("delete").as_slice()) {
        Ok(EditAction::Delete)
    } else if crate::bytes_util::bytes_eq(a.as_slice(), str_bytes("update_alert").as_slice()) {
        match alert_fields(&pairs) {
            Ok(alert) => Ok(EditAction::UpdateAlert(alert)),
            Err(e) => Err(e),
        }
    } else {
        Err(FormError::Malformed)
    }
}

} // verus!
