//! The provisioning web service's request handling: HTTP request-line
//! and header scanning, the `multipart/form-data` parser that extracts
//! the submitted Wi-Fi credentials, and the decision of what a received
//! request leads to.
//!
//! The surrounding task owns the TCP socket: it accumulates bytes until
//! the request is complete, asks `handle_request` what to do, writes the
//! page or the confirmation out, persists credentials and triggers the
//! reboot.  Everything here works on plain bytes.

use vstd::prelude::*;

use crate::bytes::deep;
use crate::bytes::find_sub;
use crate::bytes::has_prefix;
use crate::bytes::lemma_find_bounds;
use crate::bytes::push_slice_range;
use crate::bytes::spec_find;
use crate::bytes::spec_split;
use crate::bytes::spec_trim;
use crate::bytes::split_on;
use crate::bytes::starts_with;
use crate::bytes::trim_class;

verus! {

/// The bytes of `\r\n`.
pub open spec fn spec_crlf() -> Seq<u8> {
    seq![13u8, 10u8]
}

/// The bytes of `\r\n`, built for the byte-level scanners.
pub fn lit_crlf() -> (v: Vec<u8>)
    ensures
        v@ == spec_crlf(),
{
    let mut v: Vec<u8> = Vec::new();
    v.push(13);
    v.push(10);
    proof {
        assert(v@ =~= spec_crlf());
    }
    v
}

/// The bytes of `\r\n\r\n`.
pub open spec fn spec_crlfcrlf() -> Seq<u8> {
    seq![13u8, 10u8, 13u8, 10u8]
}

/// The bytes of `\r\n\r\n`, built for the byte-level scanners.
pub fn lit_crlfcrlf() -> (v: Vec<u8>)
    ensures
        v@ == spec_crlfcrlf(),
{
    let mut v: Vec<u8> = Vec::new();
    v.push(13);
    v.push(10);
    v.push(13);
    v.push(10);
    proof {
        assert(v@ =~= spec_crlfcrlf());
    }
    v
}

/// The bytes of `Content-Type`.
pub open spec fn spec_content_type() -> Seq<u8> {
    seq![67u8, 111u8, 110u8, 116u8, 101u8, 110u8, 116u8, 45u8, 84u8, 121u8, 112u8, 101u8]
}

/// The bytes of `Content-Type`, built for the byte-level scanners.
pub fn lit_content_type() -> (v: Vec<u8>)
    ensures
        v@ == spec_content_type(),
{
    let mut v: Vec<u8> = Vec::new();
    v.push(67);
    v.push(111);
    v.push(110);
    v.push(116);
    v.push(101);
    v.push(110);
    v.push(116);
    v.push(45);
    v.push(84);
    v.push(121);
    v.push(112);
    v.push(101);
    proof {
        assert(v@ =~= spec_content_type());
    }
    v
}

/// The bytes of `multipart/form-data`.
pub open spec fn spec_multipart() -> Seq<u8> {
    seq![109u8, 117u8, 108u8, 116u8, 105u8, 112u8, 97u8, 114u8, 116u8, 47u8, 102u8, 111u8, 114u8, 109u8, 45u8, 100u8, 97u8, 116u8, 97u8]
}

/// The bytes of `multipart/form-data`, built for the byte-level scanners.
pub fn lit_multipart() -> (v: Vec<u8>)
    ensures
        v@ == spec_multipart(),
{
    let mut v: Vec<u8> = Vec::new();
    v.push(109);
    v.push(117);
    v.push(108);
    v.push(116);
    v.push(105);
    v.push(112);
    v.push(97);
    v.push(114);
    v.push(116);
    v.push(47);
    v.push(102);
    v.push(111);
    v.push(114);
    v.push(109);
    v.push(45);
    v.push(100);
    v.push(97);
    v.push(116);
    v.push(97);
    proof {
        assert(v@ =~= spec_multipart());
    }
    v
}

/// The bytes of `boundary=`.
pub open spec fn spec_boundary_eq() -> Seq<u8> {
    seq![98u8, 111u8, 117u8, 110u8, 100u8, 97u8, 114u8, 121u8, 61u8]
}

/// The bytes of `boundary=`, built for the byte-level scanners.
pub fn lit_boundary_eq() -> (v: Vec<u8>)
    ensures
        v@ == spec_boundary_eq(),
{
    let mut v: Vec<u8> = Vec::new();
    v.push(98);
    v.push(111);
    v.push(117);
    v.push(110);
    v.push(100);
    v.push(97);
    v.push(114);
    v.push(121);
    v.push(61);
    proof {
        assert(v@ =~= spec_boundary_eq());
    }
    v
}

/// The bytes of `Content-Disposition: form-data;`.
pub open spec fn spec_disposition() -> Seq<u8> {
    seq![67u8, 111u8, 110u8, 116u8, 101u8, 110u8, 116u8, 45u8, 68u8, 105u8, 115u8, 112u8, 111u8, 115u8, 105u8, 116u8, 105u8, 111u8, 110u8, 58u8, 32u8, 102u8, 111u8, 114u8, 109u8, 45u8, 100u8, 97u8, 116u8, 97u8, 59u8]
}

/// The bytes of `Content-Disposition: form-data;`, built for the byte-level scanners.
pub fn lit_disposition() -> (v: Vec<u8>)
    ensures
        v@ == spec_disposition(),
{
    let mut v: Vec<u8> = Vec::new();
    v.push(67);
    v.push(111);
    v.push(110);
    v.push(116);
    v.push(101);
    v.push(110);
    v.push(116);
    v.push(45);
    v.push(68);
    v.push(105);
    v.push(115);
    v.push(112);
    v.push(111);
    v.push(115);
    v.push(105);
    v.push(116);
    v.push(105);
    v.push(111);
    v.push(110);
    v.push(58);
    v.push(32);
    v.push(102);
    v.push(111);
    v.push(114);
    v.push(109);
    v.push(45);
    v.push(100);
    v.push(97);
    v.push(116);
    v.push(97);
    v.push(59);
    proof {
        assert(v@ =~= spec_disposition());
    }
    v
}

/// The bytes of `name=`.
pub open spec fn spec_name_eq() -> Seq<u8> {
    seq![110u8, 97u8, 109u8, 101u8, 61u8]
}

/// The bytes of `name=`, built for the byte-level scanners.
pub fn lit_name_eq() -> (v: Vec<u8>)
    ensures
        v@ == spec_name_eq(),
{
    let mut v: Vec<u8> = Vec::new();
    v.push(110);
    v.push(97);
    v.push(109);
    v.push(101);
    v.push(61);
    proof {
        assert(v@ =~= spec_name_eq());
    }
    v
}

/// The bytes of `ssid`.
pub open spec fn spec_ssid() -> Seq<u8> {
    seq![115u8, 115u8, 105u8, 100u8]
}

/// The bytes of `ssid`, built for the byte-level scanners.
pub fn lit_ssid() -> (v: Vec<u8>)
    ensures
        v@ == spec_ssid(),
{
    let mut v: Vec<u8> = Vec::new();
    v.push(115);
    v.push(115);
    v.push(105);
    v.push(100);
    proof {
        assert(v@ =~= spec_ssid());
    }
    v
}

/// The bytes of `password`.
pub open spec fn spec_password() -> Seq<u8> {
    seq![112u8, 97u8, 115u8, 115u8, 119u8, 111u8, 114u8, 100u8]
}

/// The bytes of `password`, built for the byte-level scanners.
pub fn lit_password() -> (v: Vec<u8>)
    ensures
        v@ == spec_password(),
{
    let mut v: Vec<u8> = Vec::new();
    v.push(112);
    v.push(97);
    v.push(115);
    v.push(115);
    v.push(119);
    v.push(111);
    v.push(114);
    v.push(100);
    proof {
        assert(v@ =~= spec_password());
    }
    v
}

/// The bytes of `GET`.
pub open spec fn spec_get() -> Seq<u8> {
    seq![71u8, 69u8, 84u8]
}

/// The bytes of `GET`, built for the byte-level scanners.
pub fn lit_get() -> (v: Vec<u8>)
    ensures
        v@ == spec_get(),
{
    let mut v: Vec<u8> = Vec::new();
    v.push(71);
    v.push(69);
    v.push(84);
    proof {
        assert(v@ =~= spec_get());
    }
    v
}

/// The bytes of `POST`.
pub open spec fn spec_post() -> Seq<u8> {
    seq![80u8, 79u8, 83u8, 84u8]
}

/// The bytes of `POST`, built for the byte-level scanners.
pub fn lit_post() -> (v: Vec<u8>)
    ensures
        v@ == spec_post(),
{
    let mut v: Vec<u8> = Vec::new();
    v.push(80);
    v.push(79);
    v.push(83);
    v.push(84);
    proof {
        assert(v@ =~= spec_post());
    }
    v
}

/// The bytes of `/config`.
pub open spec fn spec_path_config() -> Seq<u8> {
    seq![47u8, 99u8, 111u8, 110u8, 102u8, 105u8, 103u8]
}

/// The bytes of `/config`, built for the byte-level scanners.
pub fn lit_path_config() -> (v: Vec<u8>)
    ensures
        v@ == spec_path_config(),
{
    let mut v: Vec<u8> = Vec::new();
    v.push(47);
    v.push(99);
    v.push(111);
    v.push(110);
    v.push(102);
    v.push(105);
    v.push(103);
    proof {
        assert(v@ =~= spec_path_config());
    }
    v
}

/// The bytes of `/configure_wifi`.
pub open spec fn spec_path_configure_wifi() -> Seq<u8> {
    seq![47u8, 99u8, 111u8, 110u8, 102u8, 105u8, 103u8, 117u8, 114u8, 101u8, 95u8, 119u8, 105u8, 102u8, 105u8]
}

/// The bytes of `/configure_wifi`, built for the byte-level scanners.
pub fn lit_path_configure_wifi() -> (v: Vec<u8>)
    ensures
        v@ == spec_path_configure_wifi(),
{
    let mut v: Vec<u8> = Vec::new();
    v.push(47);
    v.push(99);
    v.push(111);
    v.push(110);
    v.push(102);
    v.push(105);
    v.push(103);
    v.push(117);
    v.push(114);
    v.push(101);
    v.push(95);
    v.push(119);
    v.push(105);
    v.push(102);
    v.push(105);
    proof {
        assert(v@ =~= spec_path_configure_wifi());
    }
    v
}

/// Why a provisioning form failed to parse.  Each variant names the first
/// check that failed; the service closes the connection and the operator
/// retries through the form.
#[derive(Eq, PartialEq, Copy, Clone, Debug, Structural)]
pub enum FormError {
    /// The request has no blank line separating headers from body.
    InvalidRequestFormat,
    /// No `Content-Type` header was found.
    NoContentType,
    /// The `Content-Type` is not `multipart/form-data`.
    NotMultipart,
    /// No usable `boundary=` parameter in the `Content-Type`.
    NoBoundary,
    /// A form part carried no `name=` attribute.
    NoNameAttribute,
    /// More fields were submitted than the parser's fixed capacity.
    TooManyFields,
    /// The body held no form field at all.
    NoValidFields,
    /// The form parsed but an expected field was absent.
    MissingField,
}

/// The most form fields one request may carry.
pub const MAX_FORM_FIELDS: usize = 20;

/// The value of the first header line (searching from line `i`, skipping
/// the request line) whose name, trimmed, equals `name`; values are
/// trimmed of surrounding whitespace.
pub open spec fn spec_find_header(lines: Seq<Seq<u8>>, i: int, name: Seq<u8>) -> Option<Seq<u8>>
    decreases lines.len() - i,
{
    if i < 0 || i >= lines.len() {
        None
    } else {
        let l = lines[i];
        match spec_find(l, seq![58u8], 0) {
            Some(j) => if spec_trim(l.subrange(0, j), 0) == name {
                Some(spec_trim(l.subrange(j + 1, l.len() as int), 0))
            } else {
                spec_find_header(lines, i + 1, name)
            },
            None => spec_find_header(lines, i + 1, name),
        }
    }
}

/// The remainder of the first segment (from index `i` on) whose trimmed
/// form starts with `pre`, with that prefix removed.
pub open spec fn spec_seg_after_prefix(segs: Seq<Seq<u8>>, i: int, pre: Seq<u8>) -> Option<
    Seq<u8>,
>
    decreases segs.len() - i,
{
    if i < 0 || i >= segs.len() {
        None
    } else if has_prefix(spec_trim(segs[i], 0), pre) {
        Some(spec_trim(segs[i], 0).skip(pre.len() as int))
    } else {
        spec_seg_after_prefix(segs, i + 1, pre)
    }
}

/// What one part cut out by the boundary contributes.  `None`: not a form
/// field, skip it.  `Some(None)`: it looks like a field but carries no
/// `name=` attribute, which aborts the whole parse.  `Some(Some((n, v)))`:
/// a field `n` with value `v`, the name stripped of quotes and the value
/// of boundary dashes and whitespace.
pub open spec fn spec_part_field(part: Seq<u8>) -> Option<Option<(Seq<u8>, Seq<u8>)>> {
    let t = spec_trim(part, 0);
    if !has_prefix(t, spec_disposition()) {
        None
    } else {
        let after = t.skip(spec_disposition().len() as int);
        match spec_find(after, spec_crlfcrlf(), 0) {
            None => None,
            Some(k) => {
                let head = after.subrange(0, k);
                let raw_value = after.subrange(k + 4, after.len() as int);
                match spec_seg_after_prefix(spec_split(head, seq![59u8]), 0, spec_name_eq()) {
                    None => Some(None),
                    Some(raw_name) => Some(
                        Some(
                            (spec_trim(raw_name, 34), spec_trim(spec_trim(raw_value, 45), 0)),
                        ),
                    ),
                }
            },
        }
    }
}

/// Fold the parts into the list of fields, from part `i` on: parts that
/// are no field are skipped, a nameless field aborts, the capacity is
/// fixed, and a body without a single field is itself an error.
pub open spec fn spec_collect_fields(
    parts: Seq<Seq<u8>>,
    i: int,
    acc: Seq<(Seq<u8>, Seq<u8>)>,
) -> Result<Seq<(Seq<u8>, Seq<u8>)>, FormError>
    decreases parts.len() - i,
{
    if i < 0 || i >= parts.len() {
        if acc.len() == 0 {
            Err(FormError::NoValidFields)
        } else {
            Ok(acc)
        }
    } else {
        match spec_part_field(parts[i]) {
            None => spec_collect_fields(parts, i + 1, acc),
            Some(None) => Err(FormError::NoNameAttribute),
            Some(Some(f)) => if acc.len() >= MAX_FORM_FIELDS {
                Err(FormError::TooManyFields)
            } else {
                spec_collect_fields(parts, i + 1, acc.push(f))
            },
        }
    }
}

/// The boundary of the multipart body, or the error that stops the parse
/// first: no header/body split, no `Content-Type`, a `Content-Type` other
/// than `multipart/form-data`, or no usable boundary parameter.
pub open spec fn spec_form_boundary(req: Seq<u8>) -> Result<Seq<u8>, FormError> {
    match spec_find(req, spec_crlfcrlf(), 0) {
        None => Err(FormError::InvalidRequestFormat),
        Some(i) => {
            let head = req.subrange(0, i);
            match spec_find_header(spec_split(head, spec_crlf()), 1, spec_content_type()) {
                None => Err(FormError::NoContentType),
                Some(ctv) => if !has_prefix(ctv, spec_multipart()) {
                    Err(FormError::NotMultipart)
                } else {
                    match spec_seg_after_prefix(
                        spec_split(ctv, seq![59u8]),
                        0,
                        spec_boundary_eq(),
                    ) {
                        None => Err(FormError::NoBoundary),
                        Some(b) => if b.len() == 0 {
                            Err(FormError::NoBoundary)
                        } else {
                            Ok(b)
                        },
                    }
                },
            }
        },
    }
}

/// The parsed form of a whole provisioning request: the body, cut on the
/// boundary taken from the `Content-Type` header, folded into its list of
/// `(name, value)` fields.
pub open spec fn spec_parse_form(req: Seq<u8>) -> Result<Seq<(Seq<u8>, Seq<u8>)>, FormError> {
    match spec_form_boundary(req) {
        Err(e) => Err(e),
        Ok(b) => {
            match spec_find(req, spec_crlfcrlf(), 0) {
                None => Err(FormError::InvalidRequestFormat),
                Some(i) => spec_collect_fields(
                    spec_split(req.subrange(i + 4, req.len() as int), b),
                    0,
                    Seq::empty(),
                ),
            }
        },
    }
}

/// The views of a sequence of field pairs.
pub open spec fn deep_fields(fs: Seq<(Vec<u8>, Vec<u8>)>) -> Seq<(Seq<u8>, Seq<u8>)> {
    Seq::new(fs.len(), |i: int| (fs[i].0@, fs[i].1@))
}

/// Find a header by name among the split header lines, skipping the
/// request line.
fn find_header_value(lines: &Vec<Vec<u8>>, name: &[u8]) -> (r: Option<Vec<u8>>)
    ensures
        (match r {
            Some(v) => spec_find_header(deep(lines@), 1, name@) == Some(v@),
            None => spec_find_header(deep(lines@), 1, name@) is None,
        }),
{
    let mut colon: Vec<u8> = Vec::new();
    colon.push(58);
    proof {
        assert(colon@ =~= seq![58u8]);
    }
    let mut i: usize = 1;
    loop
        invariant
            1 <= i,
            colon@ == seq![58u8],
            spec_find_header(deep(lines@), 1, name@) == spec_find_header(
                deep(lines@),
                i as int,
                name@,
            ),
        decreases lines@.len() + 1 - i,
    {
        if i >= lines.len() {
            return None;
        }
        let l = &lines[i];
        proof {
            assert(deep(lines@)[i as int] == l@);
        }
        match find_sub(l.as_slice(), colon.as_slice(), 0) {
            Some(j) => {
                proof {
                    lemma_find_bounds(l@, colon@, 0);
                }
                let mut hname: Vec<u8> = Vec::new();
                push_slice_range(&mut hname, l.as_slice(), 0, j);
                proof {
                    assert(hname@ =~= l@.subrange(0, j as int));
                }
                let hname_t = trim_class(hname.as_slice(), 0);
                if crate::bytes::bytes_eq(hname_t.as_slice(), name) {
                    let ll = l.len();
                    let mut val: Vec<u8> = Vec::new();
                    push_slice_range(&mut val, l.as_slice(), j + 1, ll);
                    proof {
                        assert(val@ =~= l@.subrange(j + 1, l@.len() as int));
                    }
                    let val_t = trim_class(val.as_slice(), 0);
                    return Some(val_t);
                }
                i += 1;
            },
            None => {
                i += 1;
            },
        }
    }
}

/// Find the first segment whose trimmed form starts with `pre` and hand
/// back what follows the prefix.
fn seg_after_prefix(segs: &Vec<Vec<u8>>, pre: &[u8]) -> (r: Option<Vec<u8>>)
    ensures
        (match r {
            Some(v) => spec_seg_after_prefix(deep(segs@), 0, pre@) == Some(v@),
            None => spec_seg_after_prefix(deep(segs@), 0, pre@) is None,
        }),
{
    let mut i: usize = 0;
    loop
        invariant
            spec_seg_after_prefix(deep(segs@), 0, pre@) == spec_seg_after_prefix(
                deep(segs@),
                i as int,
                pre@,
            ),
        decreases segs@.len() + 1 - i,
    {
        if i >= segs.len() {
            return None;
        }
        let sg = &segs[i];
        proof {
            assert(deep(segs@)[i as int] == sg@);
        }
        let t = trim_class(sg.as_slice(), 0);
        if starts_with(t.as_slice(), pre) {
            let mut rest: Vec<u8> = Vec::new();
            push_slice_range(&mut rest, t.as_slice(), pre.len(), t.len());
            proof {
                assert(rest@ =~= t@.skip(pre@.len() as int));
            }
            return Some(rest);
        }
        i += 1;
    }
}

/// What one boundary-delimited part contributes, as executable code; the
/// three outcomes mirror `spec_part_field`.
fn part_field(part: &[u8]) -> (r: Option<Option<(Vec<u8>, Vec<u8>)>>)
    ensures
        (r is None) == (spec_part_field(part@) is None),
        (match r {
            Some(inner) => (match inner {
                None => spec_part_field(part@) matches Some(None),
                Some(f) => spec_part_field(part@) matches Some(Some(g)) && g.0 == f.0@ && g.1
                    == f.1@,
            }),
            None => true,
        }),
{
    let t = trim_class(part, 0);
    let disp = lit_disposition();
    if !starts_with(t.as_slice(), disp.as_slice()) {
        return None;
    }
    let mut after: Vec<u8> = Vec::new();
    push_slice_range(&mut after, t.as_slice(), disp.len(), t.len());
    proof {
        assert(after@ =~= t@.skip(spec_disposition().len() as int));
    }
    let cc = lit_crlfcrlf();
    match find_sub(after.as_slice(), cc.as_slice(), 0) {
        None => None,
        Some(k) => {
            proof {
                lemma_find_bounds(after@, cc@, 0);
            }
            let mut head: Vec<u8> = Vec::new();
            push_slice_range(&mut head, after.as_slice(), 0, k);
            let mut raw_value: Vec<u8> = Vec::new();
            push_slice_range(&mut raw_value, after.as_slice(), k + 4, after.len());
            proof {
                assert(head@ =~= after@.subrange(0, k as int));
                assert(raw_value@ =~= after@.subrange(k + 4, after@.len() as int));
            }
            let mut semi: Vec<u8> = Vec::new();
            semi.push(59);
            proof {
                assert(semi@ =~= seq![59u8]);
            }
            let segs = split_on(head.as_slice(), semi.as_slice());
            let ne = lit_name_eq();
            match seg_after_prefix(&segs, ne.as_slice()) {
                None => Some(None),
                Some(raw_name) => {
                    let name = trim_class(raw_name.as_slice(), 34);
                    let dashless = trim_class(raw_value.as_slice(), 45);
                    let value = trim_class(dashless.as_slice(), 0);
                    Some(Some((name, value)))
                },
            }
        },
    }
}

/// Parse the whole provisioning request as a multipart form: find the
/// header/body split, take the boundary from the `Content-Type` header,
/// cut the body on it and collect the `(name, value)` fields.  Exactly
/// the inputs on which `spec_parse_form` succeeds parse; every other
/// request gets the error naming the first check that failed, and the
/// service closes the connection without crashing.
pub fn parse_form(req: &[u8]) -> (r: Result<Vec<(Vec<u8>, Vec<u8>)>, FormError>)
    ensures
        (match r {
            Ok(fs) => spec_parse_form(req@) == Ok::<Seq<(Seq<u8>, Seq<u8>)>, FormError>(deep_fields(fs@)),
            Err(e) => spec_parse_form(req@) == Err::<Seq<(Seq<u8>, Seq<u8>)>, FormError>(e),
        }),
{
    let cc = lit_crlfcrlf();
    let split_at = match find_sub(req, cc.as_slice(), 0) {
        None => {
            return Err(FormError::InvalidRequestFormat);
        },
        Some(i) => i,
    };
    proof {
        lemma_find_bounds(req@, cc@, 0);
    }
    let mut head: Vec<u8> = Vec::new();
    push_slice_range(&mut head, req, 0, split_at);
    let rl = req.len();
    let mut body: Vec<u8> = Vec::new();
    push_slice_range(&mut body, req, split_at + 4, rl);
    proof {
        assert(head@ =~= req@.subrange(0, split_at as int));
        assert(body@ =~= req@.subrange(split_at + 4, req@.len() as int));
    }
    let crlf = lit_crlf();
    let lines = split_on(head.as_slice(), crlf.as_slice());
    let ctn = lit_content_type();
    let ctv = match find_header_value(&lines, ctn.as_slice()) {
        None => {
            return Err(FormError::NoContentType);
        },
        Some(v) => v,
    };
    let mp = lit_multipart();
    if !starts_with(ctv.as_slice(), mp.as_slice()) {
        return Err(FormError::NotMultipart);
    }
    let mut semi: Vec<u8> = Vec::new();
    semi.push(59);
    proof {
        assert(semi@ =~= seq![59u8]);
    }
    let ctsegs = split_on(ctv.as_slice(), semi.as_slice());
    let be = lit_boundary_eq();
    let boundary = match seg_after_prefix(&ctsegs, be.as_slice()) {
        None => {
            return Err(FormError::NoBoundary);
        },
        Some(b) => b,
    };
    if boundary.len() == 0 {
        return Err(FormError::NoBoundary);
    }
    let parts = split_on(body.as_slice(), boundary.as_slice());
    let ghost goal = spec_collect_fields(deep(parts@), 0, Seq::empty());
    proof {
        assert(spec_parse_form(req@) == goal);
    }
    let mut fields: Vec<(Vec<u8>, Vec<u8>)> = Vec::new();
    proof {
        assert(deep_fields(fields@) =~= Seq::<(Seq<u8>, Seq<u8>)>::empty());
    }
    let mut idx: usize = 0;
    loop
        invariant
            idx <= parts@.len(),
            fields@.len() <= MAX_FORM_FIELDS,
            spec_collect_fields(deep(parts@), idx as int, deep_fields(fields@)) == goal,
            spec_parse_form(req@) == goal,
        decreases parts@.len() - idx,
    {
        if idx >= parts.len() {
            if fields.len() == 0 {
                return Err(FormError::NoValidFields);
            }
            return Ok(fields);
        }
        let pt = &parts[idx];
        proof {
            assert(deep(parts@)[idx as int] == pt@);
        }
        match part_field(pt.as_slice()) {
            None => {
                idx += 1;
            },
            Some(inner) => {
                match inner {
                    None => {
                        return Err(FormError::NoNameAttribute);
                    },
                    Some(f) => {
                        if fields.len() >= MAX_FORM_FIELDS {
                            return Err(FormError::TooManyFields);
                        }
                        let ghost oldf = fields@;
                        fields.push(f);
                        proof {
                            assert(deep_fields(fields@) =~= deep_fields(oldf).push(
                                (f.0@, f.1@),
                            ));
                        }
                        idx += 1;
                    },
                }
            },
        }
    }
}

/// The request line: everything before the first CRLF, or the whole
/// buffer when none occurs.
pub open spec fn spec_request_line(req: Seq<u8>) -> Seq<u8> {
    match spec_find(req, spec_crlf(), 0) {
        Some(i) => req.subrange(0, i),
        None => req,
    }
}

/// The space-separated tokens of the request line; the first is the
/// method, the second the path.
pub open spec fn spec_tokens(req: Seq<u8>) -> Seq<Seq<u8>> {
    spec_split(spec_request_line(req), seq![32u8])
}

/// The request asks `method` for `path`.
pub open spec fn spec_is_request(req: Seq<u8>, method: Seq<u8>, path: Seq<u8>) -> bool {
    spec_tokens(req).len() >= 2 && spec_tokens(req)[0] == method && spec_tokens(req)[1] == path
}

/// The value of the last field named `name`, as the original form
/// handler keeps the later of two same-named fields.
pub open spec fn spec_field_named(fs: Seq<(Seq<u8>, Seq<u8>)>, name: Seq<u8>) -> Option<Seq<u8>>
    decreases fs.len(),
{
    if fs.len() == 0 {
        None
    } else if fs.last().0 == name {
        Some(fs.last().1)
    } else {
        spec_field_named(fs.drop_last(), name)
    }
}

/// Look a field up by name, taking the last occurrence.
fn field_named(fs: &Vec<(Vec<u8>, Vec<u8>)>, name: &[u8]) -> (r: Option<Vec<u8>>)
    ensures
        (match r {
            Some(v) => spec_field_named(deep_fields(fs@), name@) == Some(v@),
            None => spec_field_named(deep_fields(fs@), name@) is None,
        }),
{
    let mut i = fs.len();
    proof {
        assert(deep_fields(fs@).take(i as int) =~= deep_fields(fs@));
    }
    loop
        invariant
            i <= fs@.len(),
            spec_field_named(deep_fields(fs@), name@) == spec_field_named(
                deep_fields(fs@).take(i as int),
                name@,
            ),
        decreases i,
    {
        if i == 0 {
            return None;
        }
        i -= 1;
        let f = &fs[i];
        proof {
            assert(deep_fields(fs@).take(i as int + 1).last() == (f.0@, f.1@));
            assert(deep_fields(fs@).take(i as int + 1).drop_last() =~= deep_fields(fs@).take(
                i as int,
            ));
        }
        if crate::bytes::bytes_eq(f.0.as_slice(), name) {
            let mut v: Vec<u8> = Vec::new();
            push_slice_range(&mut v, f.1.as_slice(), 0, f.1.len());
            proof {
                assert(v@ =~= f.1@);
            }
            return Some(v);
        }
    }
}

/// Whether the accumulated bytes hold a complete request head: the
/// socket loop reads until the blank line arrives, then hands the buffer
/// over for handling.
pub fn request_complete(buf: &[u8]) -> (r: bool)
    ensures
        r == (spec_find(buf@, spec_crlfcrlf(), 0) is Some),
{
    let cc = lit_crlfcrlf();
    match find_sub(buf, cc.as_slice(), 0) {
        Some(_) => true,
        None => false,
    }
}

/// What a received request leads to.  The socket task performs it: write
/// the configuration page, or persist the credentials and reboot, or
/// just close the connection.
#[derive(Debug)]
pub enum HttpAction {
    /// `GET /config`: serve the embedded configuration page.
    ServeConfigPage,
    /// `POST /configure_wifi` with a well-formed form: persist these
    /// credentials with the provisioned flag set, confirm, and reset the
    /// device.
    SaveCredentials { ssid: Vec<u8>, password: Vec<u8> },
    /// `POST /configure_wifi` whose form was unusable: close the
    /// connection, leaving stored credentials untouched.
    Reject(FormError),
    /// Anything else: close the connection without a response.
    Ignore,
}

/// The fold never produces the missing-field error; that error is raised
/// only after a successful parse.
proof fn lemma_collect_no_missing(parts: Seq<Seq<u8>>, i: int, acc: Seq<(Seq<u8>, Seq<u8>)>)
    ensures
        spec_collect_fields(parts, i, acc) != Err::<Seq<(Seq<u8>, Seq<u8>)>, FormError>(
            FormError::MissingField,
        ),
    decreases parts.len() - i,
{
    if !(i < 0 || i >= parts.len()) {
        match spec_part_field(parts[i]) {
            None => lemma_collect_no_missing(parts, i + 1, acc),
            Some(None) => {},
            Some(Some(f)) => {
                if acc.len() < MAX_FORM_FIELDS {
                    lemma_collect_no_missing(parts, i + 1, acc.push(f));
                }
            },
        }
    }
}

/// A parse failure is always one of the parse errors: the missing-field
/// rejection never comes out of `spec_parse_form` itself.
pub proof fn lemma_parse_form_no_missing_field(req: Seq<u8>)
    ensures
        spec_parse_form(req) != Err::<Seq<(Seq<u8>, Seq<u8>)>, FormError>(
            FormError::MissingField,
        ),
{
    match spec_form_boundary(req) {
        Err(e) => {},
        Ok(b) => {
            match spec_find(req, spec_crlfcrlf(), 0) {
                None => {},
                Some(i) => {
                    lemma_collect_no_missing(
                        spec_split(req.subrange(i + 4, req.len() as int), b),
                        0,
                        Seq::empty(),
                    );
                },
            }
        },
    }
}

/// Decide what a complete request leads to.  `GET /config` serves the
/// page; `POST /configure_wifi` parses the multipart form and yields the
/// submitted `ssid` and `password` values exactly when both are present;
/// every parse failure is surfaced as a rejection, never a crash; any
/// other request is ignored.
pub fn handle_request(req: &[u8]) -> (a: HttpAction)
    ensures
        (match a {
            HttpAction::ServeConfigPage => spec_is_request(req@, spec_get(), spec_path_config()),
            HttpAction::SaveCredentials { ssid, password } => spec_is_request(
                req@,
                spec_post(),
                spec_path_configure_wifi(),
            ) && (spec_parse_form(req@) matches Ok(fs) && spec_field_named(fs, spec_ssid())
                == Some(ssid@) && spec_field_named(fs, spec_password()) == Some(password@)),
            HttpAction::Reject(e) => spec_is_request(req@, spec_post(), spec_path_configure_wifi())
                && ((e != FormError::MissingField && spec_parse_form(req@) == Err::<
                Seq<(Seq<u8>, Seq<u8>)>,
                FormError,
            >(e)) || (e == FormError::MissingField && (spec_parse_form(req@) matches Ok(fs) && (
            spec_field_named(fs, spec_ssid()) is None || spec_field_named(
                fs,
                spec_password(),
            ) is None)))),
            HttpAction::Ignore => !spec_is_request(req@, spec_get(), spec_path_config())
                && !spec_is_request(req@, spec_post(), spec_path_configure_wifi()),
        }),
{
    let crlf = lit_crlf();
    let rl = req.len();
    let mut line: Vec<u8> = Vec::new();
    match find_sub(req, crlf.as_slice(), 0) {
        Some(i) => {
            proof {
                lemma_find_bounds(req@, crlf@, 0);
            }
            push_slice_range(&mut line, req, 0, i);
            proof {
                assert(line@ =~= req@.subrange(0, i as int));
            }
        },
        None => {
            push_slice_range(&mut line, req, 0, rl);
            proof {
                assert(line@ =~= req@);
            }
        },
    }
    let mut sp: Vec<u8> = Vec::new();
    sp.push(32);
    proof {
        assert(sp@ =~= seq![32u8]);
    }
    let toks = split_on(line.as_slice(), sp.as_slice());
    if toks.len() < 2 {
        return HttpAction::Ignore;
    }
    let method = &toks[0];
    let path = &toks[1];
    proof {
        assert(deep(toks@)[0] == method@);
        assert(deep(toks@)[1] == path@);
    }
    let get = lit_get();
    let post = lit_post();
    let pc = lit_path_config();
    let pw = lit_path_configure_wifi();
    if crate::bytes::bytes_eq(method.as_slice(), get.as_slice()) && crate::bytes::bytes_eq(
        path.as_slice(),
        pc.as_slice(),
    ) {
        return HttpAction::ServeConfigPage;
    }
    if crate::bytes::bytes_eq(method.as_slice(), post.as_slice()) && crate::bytes::bytes_eq(
        path.as_slice(),
        pw.as_slice(),
    ) {
        match parse_form(req) {
            Err(e) => {
                proof {
                    lemma_parse_form_no_missing_field(req@);
                }
                return HttpAction::Reject(e);
            },
            Ok(fields) => {
                let sn = lit_ssid();
                let pn = lit_password();
                let sv = match field_named(&fields, sn.as_slice()) {
                    None => {
                        return HttpAction::Reject(FormError::MissingField);
                    },
                    Some(v) => v,
                };
                let pv = match field_named(&fields, pn.as_slice()) {
                    None => {
                        return HttpAction::Reject(FormError::MissingField);
                    },
                    Some(v) => v,
                };
                return HttpAction::SaveCredentials { ssid: sv, password: pv };
            },
        }
    }
    HttpAction::Ignore
}

} // verus!
