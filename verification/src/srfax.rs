//! Wire-protocol client logic and the download pipeline's pure steps.
//!
//! Everything here computes on plain values: request parameter lists, the
//! composite-identifier resolver with its path-safety rules, destination
//! paths, and the base64 document decoding.  The HTTP transport and the
//! filesystem writes live in the unverified shell, which hands their
//! outcomes back as plain values.

use vstd::prelude::*;
use vstd::string::StringExecFns;
use vstd::string::StrSliceExecFns;
use crate::config::Srfax;
use crate::response::Direction;
use crate::response::DownloadFormat;
use crate::response::InboxItem;
use crate::response::ResultStatus;
use crate::response::RetrieveFaxResponse;

verus! {

/// Failure kinds of the resolver and the download pipeline.
#[derive(Debug)]
pub enum SrfaxError {
    /// Network or HTTP-level failure, surfaced by the shell as a message.
    Transport(String),
    /// Filesystem failure, surfaced by the shell as a message.
    Io(String),
    /// The composite identifier holds no `|` delimiter.
    MalformedIdentifier(String),
    /// The resolved file name holds `..` or a path separator.
    UnsafePath(String),
    /// The retrieve envelope's status was not `Success`, or its payload was
    /// absent.
    DownloadFailed,
    /// The document payload was not valid base64.
    BadBase64,
}

impl SrfaxError {
    /// Human-readable description, used in log lines and alert bodies.
    pub open spec fn describe_spec(self) -> Seq<char> {
        match self {
            SrfaxError::Transport(m) => "transport error: "@ + m@,
            SrfaxError::Io(m) => "io error: "@ + m@,
            SrfaxError::MalformedIdentifier(s) => "malformed identifier: "@ + s@,
            SrfaxError::UnsafePath(n) => "unsafe path: "@ + n@,
            SrfaxError::DownloadFailed => "failed to download"@,
            SrfaxError::BadBase64 => "invalid base64 document"@,
        }
    }

    pub fn describe(&self) -> (r: String)
        ensures
            r@ == self.describe_spec(),
    {
        match self {
            SrfaxError::Transport(m) => {
                let mut s = "transport error: ".to_owned();
                s.append(m.as_str());
                s
            },
            SrfaxError::Io(m) => {
                let mut s = "io error: ".to_owned();
                s.append(m.as_str());
                s
            },
            SrfaxError::MalformedIdentifier(c) => {
                let mut s = "malformed identifier: ".to_owned();
                s.append(c.as_str());
                s
            },
            SrfaxError::UnsafePath(n) => {
                let mut s = "unsafe path: ".to_owned();
                s.append(n.as_str());
                s
            },
            SrfaxError::DownloadFailed => "failed to download".to_owned(),
            SrfaxError::BadBase64 => "invalid base64 document".to_owned(),
        }
    }
}

/// Root URL of the provider, probed for connectivity.
pub fn srfax_root() -> (r: &'static str)
    ensures
        r@ == "https://www.srfax.com"@,
{
    "https://www.srfax.com"
}

/// Fixed API endpoint every operation POSTs to.
pub fn srfax_api() -> (r: &'static str)
    ensures
        r@ == "https://www.srfax.com/SRF_SecWebSvc.php"@,
{
    "https://www.srfax.com/SRF_SecWebSvc.php"
}

/// Whether `s` holds the composite-identifier delimiter.
pub open spec fn has_bar(s: Seq<char>) -> bool {
    exists|i: int| 0 <= i < s.len() && s[i] == '|'
}

/// Index of the first `|` in `s`, or `s.len()` if there is none.
pub open spec fn first_bar(s: Seq<char>) -> int
    decreases s.len(),
{
    if s.len() == 0 {
        0
    } else if s[0] == '|' {
        0
    } else {
        1 + first_bar(s.skip(1))
    }
}

/// The file-name part of a composite identifier: what stands before the
/// first delimiter.
pub open spec fn split_name(s: Seq<char>) -> Seq<char> {
    s.take(first_bar(s))
}

/// The details-id part of a composite identifier: what stands after the
/// first delimiter.  The delimiter itself lands in neither part.
pub open spec fn split_id(s: Seq<char>) -> Seq<char> {
    s.skip(first_bar(s) + 1)
}

/// `first_bar` is a position in `s` (or its length), it points at a `|`,
/// and no earlier position does.
pub proof fn lemma_first_bar(s: Seq<char>)
    ensures
        0 <= first_bar(s) <= s.len(),
        first_bar(s) < s.len() ==> s[first_bar(s)] == '|',
        forall|j: int| 0 <= j < first_bar(s) ==> s[j] != '|',
        has_bar(s) <==> first_bar(s) < s.len(),
    decreases s.len(),
{
    if s.len() == 0 {
    } else if s[0] == '|' {
    } else {
        lemma_first_bar(s.skip(1));
        assert forall|j: int| 0 <= j < first_bar(s) implies s[j] != '|' by {
            if j > 0 {
                assert(s.skip(1)[j - 1] == s[j]);
            }
        }
        if has_bar(s) {
            let i = choose|i: int| 0 <= i < s.len() && s[i] == '|';
            assert(i > 0);
            assert(s.skip(1)[i - 1] == '|');
        }
        if first_bar(s) < s.len() {
            assert(s[first_bar(s)] == s.skip(1)[first_bar(s.skip(1))]);
        }
    }
}

/// Splitting a composite identifier assembled as `name|id`, where the name
/// holds no delimiter, yields exactly the name and the id.
pub proof fn lemma_split_round_trip(name: Seq<char>, id: Seq<char>)
    requires
        forall|j: int| 0 <= j < name.len() ==> name[j] != '|',
    ensures
        split_name(name + seq!['|'] + id) == name,
        split_id(name + seq!['|'] + id) == id,
{
    let s = name + seq!['|'] + id;
    lemma_first_bar(s);
    let f = first_bar(s);
    assert(s[name.len() as int] == '|');
    assert(f <= name.len());
    if f < name.len() {
        assert(s[f] == name[f]);
    }
    assert(f == name.len());
    assert(split_name(s) =~= name);
    assert(split_id(s) =~= id);
}

/// Split a composite remote identifier at its first `|` into the human file
/// name and the provider-internal details id; `None` when no delimiter is
/// present.
pub fn split_fax_filename(s: &str) -> (r: Option<(String, String)>)
    ensures
        match r {
            Some((name, id)) => has_bar(s@) && name@ == split_name(s@) && id@ == split_id(s@),
            None => !has_bar(s@),
        },
{
    let n = s.unicode_len();
    let mut i: usize = 0;
    while i < n
        invariant
            n == s@.len(),
            0 <= i <= n,
            forall|j: int| 0 <= j < i ==> s@[j] != '|',
        decreases n - i,
    {
        if s.get_char(i) == '|' {
            let name = s.substring_char(0, i).to_owned();
            let id = s.substring_char(i + 1, n).to_owned();
            proof {
                lemma_first_bar(s@);
                assert(first_bar(s@) == i);
                assert(name@ =~= split_name(s@));
                assert(id@ =~= split_id(s@));
            }
            return Some((name, id));
        }
        i = i + 1;
    }
    proof {
        lemma_first_bar(s@);
    }
    None
}

/// A file name is safe to write locally when it holds no path separator of
/// either orientation and no `..` sequence.
pub open spec fn safe_filename(s: Seq<char>) -> bool {
    &&& forall|i: int| 0 <= i < s.len() ==> #[trigger] s[i] != '/' && s[i] != '\\'
    &&& forall|i: int| 0 <= i && i + 1 < s.len() ==> !(#[trigger] s[i] == '.' && s[i + 1] == '.')
}

/// Decide `safe_filename` for a candidate local file name.
pub fn is_safe_filename(name: &str) -> (r: bool)
    ensures
        r == safe_filename(name@),
{
    let n = name.unicode_len();
    let mut i: usize = 0;
    while i < n
        invariant
            n == name@.len(),
            0 <= i <= n,
            forall|j: int| 0 <= j < i ==> #[trigger] name@[j] != '/' && name@[j] != '\\',
            forall|j: int| 0 <= j < i && j + 1 < n ==> !(#[trigger] name@[j] == '.' && name@[j + 1]
                == '.'),
        decreases n - i,
    {
        let c = name.get_char(i);
        if c == '/' || c == '\\' {
            return false;
        }
        if c == '.' && i + 1 < n {
            if name.get_char(i + 1) == '.' {
                return false;
            }
        }
        i = i + 1;
    }
    true
}

/// Resolve a composite remote identifier into a local file name and a
/// details id: split at the first `|`, then check the name is safe to write.
/// No delimiter fails with `MalformedIdentifier`; an unsafe name fails with
/// `UnsafePath`.
pub fn resolve_fax_filename(composite: &str) -> (r: Result<(String, String), SrfaxError>)
    ensures
        match r {
            Ok((name, id)) => has_bar(composite@) && safe_filename(split_name(composite@))
                && name@ == split_name(composite@) && id@ == split_id(composite@),
            Err(e) => (e matches SrfaxError::MalformedIdentifier(s) && !has_bar(composite@) && s@
                == composite@) || (e matches SrfaxError::UnsafePath(n) && has_bar(composite@)
                && !safe_filename(split_name(composite@)) && n@ == split_name(composite@)),
        },
{
    match split_fax_filename(composite) {
        None => Err(SrfaxError::MalformedIdentifier(composite.to_owned())),
        Some((name, id)) => {
            if is_safe_filename(name.as_str()) {
                Ok((name, id))
            } else {
                Err(SrfaxError::UnsafePath(name))
            }
        },
    }
}

/// Index of the last `.` in `s`, or `-1` if there is none.
pub open spec fn last_dot(s: Seq<char>) -> int
    decreases s.len(),
{
    if s.len() == 0 {
        -1
    } else if s[s.len() - 1] == '.' {
        s.len() - 1
    } else {
        last_dot(s.drop_last())
    }
}

/// `last_dot` is a position in `s` (or `-1`), it points at a `.`, and no
/// later position does.
pub proof fn lemma_last_dot(s: Seq<char>)
    ensures
        -1 <= last_dot(s) < s.len(),
        last_dot(s) >= 0 ==> s[last_dot(s)] == '.',
        forall|j: int| last_dot(s) < j < s.len() ==> s[j] != '.',
    decreases s.len(),
{
    if s.len() > 0 && s[s.len() - 1] != '.' {
        lemma_last_dot(s.drop_last());
        assert forall|j: int| last_dot(s) < j < s.len() implies s[j] != '.' by {
            if j < s.len() - 1 {
                assert(s.drop_last()[j] == s[j]);
            }
        }
    }
}

/// The file stem: everything before the last `.`, unless that dot stands
/// first or there is none, in which case the whole name is the stem.
pub open spec fn stem_spec(s: Seq<char>) -> Seq<char> {
    if last_dot(s) > 0 {
        s.take(last_dot(s))
    } else {
        s
    }
}

/// The local artifact path: target directory, separator, file stem, and the
/// provider-format extension in place of any existing one.
pub open spec fn dest_path_spec(dir: Seq<char>, name: Seq<char>, fmt: DownloadFormat) -> Seq<
    char,
> {
    dir + "/"@ + stem_spec(name) + "."@ + fmt.str_spec()
}

/// Compute the destination path for a resolved file name under an account's
/// target directory, replacing the name's extension with the format's.
pub fn dest_path(dir: &str, name: &str, fmt: DownloadFormat) -> (r: String)
    ensures
        r@ == dest_path_spec(dir@, name@, fmt),
{
    let n = name.unicode_len();
    let mut i: usize = n;
    let mut dot: Option<usize> = None;
    loop
        invariant_except_break
            dot is None,
        invariant
            n == name@.len(),
            0 <= i <= n,
            forall|j: int| i <= j < n ==> name@[j] != '.',
        ensures
            match dot {
                Some(p) => p < n && name@[p as int] == '.' && (forall|j: int|
                    p < j < n ==> name@[j] != '.'),
                None => forall|j: int| 0 <= j < n ==> name@[j] != '.',
            },
        decreases i,
    {
        if i == 0 {
            break;
        }
        if name.get_char(i - 1) == '.' {
            dot = Some(i - 1);
            break;
        }
        i = i - 1;
    }
    let stem_end: usize = match dot {
        Some(p) => if p > 0 {
            p
        } else {
            n
        },
        None => n,
    };
    proof {
        lemma_last_dot(name@);
        match dot {
            Some(p) => {
                // the scan stopped on a dot with none after it, so it found
                // the last one
                assert(last_dot(name@) >= p);
                assert(last_dot(name@) == p);
            },
            None => {
                assert(last_dot(name@) == -1);
            },
        }
        assert(stem_spec(name@) =~= name@.take(stem_end as int));
    }
    let stem = name.substring_char(0, stem_end);
    let mut r = dir.to_owned();
    r.append("/");
    r.append(stem);
    r.append(".");
    r.append(fmt.as_str());
    proof {
        assert(r@ =~= dest_path_spec(dir@, name@, fmt));
    }
    r
}

/// Bytes of `s` with every newline byte removed.
pub open spec fn strip_nl(s: Seq<u8>) -> Seq<u8>
    decreases s.len(),
{
    if s.len() == 0 {
        Seq::empty()
    } else {
        let rest = strip_nl(s.drop_last());
        if s.last() == 10 {
            rest
        } else {
            rest.push(s.last())
        }
    }
}

/// Remove the newline bytes a provider wraps its base64 output with.
pub fn strip_newlines(data: &Vec<u8>) -> (r: Vec<u8>)
    ensures
        r@ == strip_nl(data@),
{
    let mut r: Vec<u8> = Vec::new();
    let n = data.len();
    let mut i: usize = 0;
    while i < n
        invariant
            n == data@.len(),
            0 <= i <= n,
            r@ == strip_nl(data@.take(i as int)),
        decreases n - i,
    {
        let b = data[i];
        proof {
            assert(data@.take(i + 1).drop_last() =~= data@.take(i as int));
            assert(data@.take(i + 1).last() == data@[i as int]);
        }
        if b != 10 {
            r.push(b);
        }
        i = i + 1;
    }
    proof {
        assert(data@.take(n as int) =~= data@);
    }
    r
}

/// Stripping distributes over concatenation.
proof fn lemma_strip_nl_concat(a: Seq<u8>, b: Seq<u8>)
    ensures
        strip_nl(a + b) == strip_nl(a) + strip_nl(b),
    decreases b.len(),
{
    if b.len() == 0 {
        assert(a + b =~= a);
        assert(strip_nl(a) + strip_nl(b) =~= strip_nl(a));
    } else {
        lemma_strip_nl_concat(a, b.drop_last());
        assert((a + b).drop_last() =~= a + b.drop_last());
        assert((a + b).last() == b.last());
        if b.last() == 10 {
        } else {
            assert(strip_nl(a) + strip_nl(b) =~= (strip_nl(a) + strip_nl(b.drop_last())).push(
                b.last()));
        }
    }
}

/// Stripping a sequence that holds no newline leaves it unchanged.
proof fn lemma_strip_nl_clean(s: Seq<u8>)
    requires
        forall|i: int| 0 <= i < s.len() ==> s[i] != 10,
    ensures
        strip_nl(s) == s,
    decreases s.len(),
{
    if s.len() > 0 {
        lemma_strip_nl_clean(s.drop_last());
        assert(strip_nl(s) =~= s);
    }
}

/// `s` wrapped at a fixed column width: a newline byte after every `w`
/// bytes of payload.
pub open spec fn wrap_nl(s: Seq<u8>, w: int) -> Seq<u8>
    recommends
        w >= 1,
    decreases s.len(),
{
    if s.len() <= w || w < 1 {
        s
    } else {
        s.take(w) + seq![10u8] + wrap_nl(s.skip(w), w)
    }
}

/// Wrapping newline-free bytes at a fixed width and then stripping the
/// newlines restores the original bytes exactly.
pub proof fn lemma_wrap_strip_round_trip(s: Seq<u8>, w: int)
    requires
        w >= 1,
        forall|i: int| 0 <= i < s.len() ==> s[i] != 10,
    ensures
        strip_nl(wrap_nl(s, w)) == s,
    decreases s.len(),
{
    if s.len() <= w {
        lemma_strip_nl_clean(s);
    } else {
        let head = s.take(w) + seq![10u8];
        lemma_strip_nl_concat(head, wrap_nl(s.skip(w), w));
        lemma_strip_nl_concat(s.take(w), seq![10u8]);
        assert(seq![10u8].drop_last() =~= Seq::<u8>::empty());
        assert(strip_nl(Seq::<u8>::empty()) =~= Seq::<u8>::empty());
        assert(strip_nl(seq![10u8]) =~= Seq::<u8>::empty());
        lemma_strip_nl_clean(s.take(w));
        lemma_wrap_strip_round_trip(s.skip(w), w);
        assert(strip_nl(head) =~= s.take(w));
        assert(strip_nl(wrap_nl(s, w)) =~= s.take(w) + s.skip(w));
        assert(s.take(w) + s.skip(w) =~= s);
    }
}

/// What `base64::decode` returns on the given bytes: the decoded octets, or
/// nothing when the input is not valid standard base64.
pub uninterp spec fn b64_decode_of(data: Seq<u8>) -> Option<Seq<u8>>;

/// Relies on base64::decode (standard alphabet, 0.13): the result is a
/// function of the input bytes alone; an error marks input that is not
/// valid base64.
#[verifier::external_body]
pub(crate) fn b64_decode(data: &Vec<u8>) -> (r: Option<Vec<u8>>)
    ensures
        match r {
            Some(v) => b64_decode_of(data@) == Some(v@),
            None => b64_decode_of(data@) is None,
        },
{
    match base64::decode(data) {
        Ok(v) => Some(v),
        Err(_) => None,
    }
}

/// The byte encoding of a document payload string.
pub open spec fn payload_bytes(p: Seq<char>) -> Seq<u8> {
    vstd::utf8::encode_utf8(p)
}

/// Decode a retrieve envelope into document bytes: demand a `Success`
/// status and a payload, strip the fixed-width wrapping newlines, and
/// base64-decode the rest.
pub fn decode_retrieve(resp: &RetrieveFaxResponse) -> (r: Result<Vec<u8>, SrfaxError>)
    ensures
        match r {
            Ok(bytes) => ({
                &&& resp.Status is Success
                &&& resp.Result matches Some(p)
                &&& b64_decode_of(strip_nl(payload_bytes(p@))) == Some(bytes@)
            }),
            Err(e) => (e is DownloadFailed && (resp.Status is Failed || resp.Result is None)) || ({
                &&& e is BadBase64
                &&& resp.Status is Success
                &&& resp.Result matches Some(p)
                &&& b64_decode_of(strip_nl(payload_bytes(p@))) is None
            }),
        },
{
    if !(resp.Status == ResultStatus::Success) {
        return Err(SrfaxError::DownloadFailed);
    }
    match &resp.Result {
        None => Err(SrfaxError::DownloadFailed),
        Some(p) => {
            let raw = p.as_str().as_bytes_vec();
            let stripped = strip_newlines(&raw);
            match b64_decode(&stripped) {
                Some(v) => Ok(v),
                None => Err(SrfaxError::BadBase64),
            }
        },
    }
}

/// The form body of a list-inbox POST: the period filter, then the action
/// name and the account credentials.
pub open spec fn is_inbox_params(ps: Seq<(String, String)>, acct: Srfax) -> bool {
    &&& ps.len() == 4
    &&& ps[0].0@ == "sPeriod"@ && ps[0].1@ == "ALL"@
    &&& ps[1].0@ == "action"@ && ps[1].1@ == "Get_Fax_Inbox"@
    &&& ps[2].0@ == "access_id"@ && ps[2].1@ == acct.access_id@
    &&& ps[3].0@ == "access_pwd"@ && ps[3].1@ == acct.access_pwd@
}

/// The form body of a retrieve POST: the item, direction and format fields,
/// then the action name and the account credentials.
pub open spec fn is_retrieve_params(
    ps: Seq<(String, String)>,
    acct: Srfax,
    item: InboxItem,
    dir: Direction,
) -> bool {
    &&& ps.len() == 6
    &&& ps[0].0@ == "sFaxFileName"@ && ps[0].1@ == item.FileName@
    &&& ps[1].0@ == "sDirection"@ && ps[1].1@ == dir.str_spec()
    &&& ps[2].0@ == "sFaxFormat"@ && ps[2].1@ == acct.download_fmt.str_spec()
    &&& ps[3].0@ == "action"@ && ps[3].1@ == "Retrieve_Fax"@
    &&& ps[4].0@ == "access_id"@ && ps[4].1@ == acct.access_id@
    &&& ps[5].0@ == "access_pwd"@ && ps[5].1@ == acct.access_pwd@
}

/// The form body of a delete POST: the direction, the composite identifier
/// and the details id split out of it, then the action name and the account
/// credentials.
pub open spec fn is_delete_params(
    ps: Seq<(String, String)>,
    acct: Srfax,
    item: InboxItem,
    dir: Direction,
) -> bool {
    &&& ps.len() == 6
    &&& ps[0].0@ == "sDirection"@ && ps[0].1@ == dir.str_spec()
    &&& ps[1].0@ == "sFaxFilename_x"@ && ps[1].1@ == item.FileName@
    &&& ps[2].0@ == "sFaxDetailsID_x"@ && ps[2].1@ == split_id(item.FileName@)
    &&& ps[3].0@ == "action"@ && ps[3].1@ == "Delete_Fax"@
    &&& ps[4].0@ == "access_id"@ && ps[4].1@ == acct.access_id@
    &&& ps[5].0@ == "access_pwd"@ && ps[5].1@ == acct.access_pwd@
}

/// Build the form body of a list-inbox request.
pub fn inbox_request_params(acct: &Srfax) -> (r: Vec<(String, String)>)
    ensures
        is_inbox_params(r@, *acct),
{
    let mut ps: Vec<(String, String)> = Vec::new();
    ps.push(("sPeriod".to_owned(), "ALL".to_owned()));
    ps.push(("action".to_owned(), "Get_Fax_Inbox".to_owned()));
    ps.push(("access_id".to_owned(), acct.access_id.clone()));
    ps.push(("access_pwd".to_owned(), acct.access_pwd.clone()));
    ps
}

/// Build the form body of a retrieve request for one inbox item.
pub fn retrieve_request_params(acct: &Srfax, item: &InboxItem, dir: Direction) -> (r: Vec<
    (String, String),
>)
    ensures
        is_retrieve_params(r@, *acct, *item, dir),
{
    let mut ps: Vec<(String, String)> = Vec::new();
    ps.push(("sFaxFileName".to_owned(), item.FileName.clone()));
    ps.push(("sDirection".to_owned(), dir.as_str().to_owned()));
    ps.push(("sFaxFormat".to_owned(), acct.download_fmt.as_str().to_owned()));
    ps.push(("action".to_owned(), "Retrieve_Fax".to_owned()));
    ps.push(("access_id".to_owned(), acct.access_id.clone()));
    ps.push(("access_pwd".to_owned(), acct.access_pwd.clone()));
    ps
}

/// Build the form body of a delete request for one inbox item.  The
/// identifier must have resolved, so the details id can be split out.
pub fn delete_request_params(acct: &Srfax, item: &InboxItem, dir: Direction) -> (r: Vec<
    (String, String),
>)
    requires
        has_bar(item.FileName@),
    ensures
        is_delete_params(r@, *acct, *item, dir),
{
    let id: String = match split_fax_filename(item.FileName.as_str()) {
        Some((_name, id)) => id,
        None => unreached(),
    };
    let mut ps: Vec<(String, String)> = Vec::new();
    ps.push(("sDirection".to_owned(), dir.as_str().to_owned()));
    ps.push(("sFaxFilename_x".to_owned(), item.FileName.clone()));
    ps.push(("sFaxDetailsID_x".to_owned(), id));
    ps.push(("action".to_owned(), "Delete_Fax".to_owned()));
    ps.push(("access_id".to_owned(), acct.access_id.clone()));
    ps.push(("access_pwd".to_owned(), acct.access_pwd.clone()));
    ps
}

} // verus!
