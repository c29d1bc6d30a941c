//! Requests and responses as plain values.

use crate::error::XeroError;
use crate::rate_limiter::tenant::tenant_text;
use crate::rate_limiter::tenant::uuid_text;
use crate::rate_limiter::tenant::TenantId;
use crate::text::chars_of;
use crate::text::decimal_digits;
use crate::text::decimal_string;
use crate::text::join;
use crate::text::joined;
use vstd::prelude::*;
use vstd::string::*;

verus! {

/// Where the Accounting API lives.
pub const ACCOUNTING_BASE_URL: &'static str = "https://api.xero.com/api.xro/2.0";

/// Where the Assets API lives.
pub const ASSETS_BASE_URL: &'static str = "https://api.xero.com/assets.xro/1.0";

/// Where the Files API lives.
pub const FILES_BASE_URL: &'static str = "https://api.xero.com/files.xro/1.0";

/// The status with which a resource that the response should hold, and does
/// not, is reported.
pub const NOT_FOUND: u16 = 404;

/// One step of a path: a name, or the identifier of a resource.
#[derive(Clone, Debug)]
pub enum Segment {
    Name(String),
    Id(u128),
}

/// A step of a path as it is written.
pub open spec fn segment_text(segment: Segment) -> Seq<char> {
    match segment {
        Segment::Name(name) => name@,
        Segment::Id(id) => uuid_text(id),
    }
}

/// A path as it is written: each of its steps with a slash before it.
pub open spec fn path_text(segments: Seq<Segment>) -> Seq<char>
    decreases segments.len(),
{
    if segments.len() == 0 {
        Seq::empty()
    } else {
        path_text(segments.drop_last()) + seq!['/'] + segment_text(segments.last())
    }
}

/// The path of a resource below the base of its API.
pub fn path(segments: &Vec<Segment>) -> (text: String)
    ensures
        text@ == path_text(segments@),
{
    let mut text = String::new();
    let mut i: usize = 0;
    while i < segments.len()
        invariant
            i <= segments.len(),
            text@ == path_text(segments@.take(i as int)),
        decreases segments.len() - i,
    {
        proof {
            assert(segments@.take(i as int + 1).drop_last() =~= segments@.take(i as int));
            assert(segments@.take(i as int + 1).last() == segments@[i as int]);
        }
        let ghost before = text@;
        text.push('/');
        proof {
            assert(text@ =~= before + seq!['/']);
        }
        match &segments[i] {
            Segment::Name(name) => {
                text.append(name.as_str());
            },
            Segment::Id(id) => {
                let id_text = tenant_text(*id);
                text.append(id_text.as_str());
            },
        }
        i += 1;
    }
    proof {
        assert(segments@.take(segments.len() as int) =~= segments@);
    }
    text
}

/// The path of a collection, or of the one resource of it that `id` names.
pub fn resource_path(collection: &str, id: Option<u128>) -> (text: String)
    ensures
        text@ == match id {
            Some(id) => seq!['/'] + collection@ + seq!['/'] + uuid_text(id),
            None => seq!['/'] + collection@,
        },
{
    let mut segments: Vec<Segment> = Vec::new();
    segments.push(Segment::Name(String::from_str(collection)));
    proof {
        reveal_with_fuel(path_text, 3);
        assert(segments@.drop_last() =~= Seq::<Segment>::empty());
    }
    if let Some(id) = id {
        let ghost first = segments@;
        segments.push(Segment::Id(id));
        proof {
            assert(segments@.drop_last() =~= first);
            assert(Seq::<char>::empty() + seq!['/'] + collection@ + seq!['/'] + uuid_text(id)
                =~= seq!['/'] + collection@ + seq!['/'] + uuid_text(id));
        }
    } else {
        proof {
            assert(Seq::<char>::empty() + seq!['/'] + collection@ =~= seq!['/'] + collection@);
        }
    }
    path(&segments)
}

/// The path of what belongs to one resource: `/Invoices/{id}/Email`.
pub fn child_path(collection: &str, id: u128, child: &str) -> (text: String)
    ensures
        text@ == seq!['/'] + collection@ + seq!['/'] + uuid_text(id) + seq!['/'] + child@,
{
    let mut segments: Vec<Segment> = Vec::new();
    segments.push(Segment::Name(String::from_str(collection)));
    segments.push(Segment::Id(id));
    segments.push(Segment::Name(String::from_str(child)));
    proof {
        reveal_with_fuel(path_text, 4);
        let two = segments@.drop_last();
        let one = two.drop_last();
        assert(one.drop_last() =~= Seq::<Segment>::empty());
        assert(path_text(segments@) =~= seq!['/'] + collection@ + seq!['/'] + uuid_text(id)
            + seq!['/'] + child@);
    }
    path(&segments)
}

/// The path of one of the things that belong to one resource:
/// `/TrackingCategories/{id}/Options/{id}`.
pub fn grandchild_path(collection: &str, id: u128, child: &str, child_id: u128) -> (text: String)
    ensures
        text@ == seq!['/'] + collection@ + seq!['/'] + uuid_text(id) + seq!['/'] + child@
            + seq!['/'] + uuid_text(child_id),
{
    let mut segments: Vec<Segment> = Vec::new();
    segments.push(Segment::Name(String::from_str(collection)));
    segments.push(Segment::Id(id));
    segments.push(Segment::Name(String::from_str(child)));
    segments.push(Segment::Id(child_id));
    proof {
        reveal_with_fuel(path_text, 5);
        let three = segments@.drop_last();
        let two = three.drop_last();
        let one = two.drop_last();
        assert(one.drop_last() =~= Seq::<Segment>::empty());
        assert(path_text(segments@) =~= seq!['/'] + collection@ + seq!['/'] + uuid_text(id)
            + seq!['/'] + child@ + seq!['/'] + uuid_text(child_id));
    }
    path(&segments)
}

/// The address of a resource: the base of its API and its path.
pub fn url(base: &str, path: &str) -> (address: String)
    ensures
        address@ == base@ + path@,
{
    String::from_str(base).concat(path)
}

/// A character of a file name as it goes into a path: square brackets are
/// written as percent escapes, anything else stays.
pub open spec fn encoded_char(c: char) -> Seq<char> {
    if c == '[' {
        "%5B"@
    } else if c == ']' {
        "%5D"@
    } else {
        seq![c]
    }
}

/// A file name as it goes into a path.
pub open spec fn encoded_file_name(name: Seq<char>) -> Seq<char>
    decreases name.len(),
{
    if name.len() == 0 {
        Seq::empty()
    } else {
        encoded_file_name(name.drop_last()) + encoded_char(name.last())
    }
}

/// The name of an attachment as it goes into a path: the API wants square
/// brackets escaped and nothing else.
pub fn encode_file_name(name: &str) -> (encoded: String)
    ensures
        encoded@ == encoded_file_name(name@),
{
    let chars = chars_of(name);
    let mut encoded = String::new();
    let mut i: usize = 0;
    while i < chars.len()
        invariant
            i <= chars.len(),
            encoded@ == encoded_file_name(chars@.take(i as int)),
        decreases chars.len() - i,
    {
        proof {
            assert(chars@.take(i as int + 1).drop_last() =~= chars@.take(i as int));
            assert(chars@.take(i as int + 1).last() == chars@[i as int]);
        }
        let c = chars[i];
        if c == '[' {
            encoded.append("%5B");
        } else if c == ']' {
            encoded.append("%5D");
        } else {
            let ghost before = encoded@;
            encoded.push(c);
            proof {
                assert(encoded@ =~= before + seq![c]);
            }
        }
        i += 1;
    }
    proof {
        assert(chars@.take(chars.len() as int) =~= chars@);
    }
    encoded
}

/// The texts of a list of identifiers.
pub open spec fn id_texts(ids: Seq<u128>) -> Seq<Seq<char>> {
    Seq::new(ids.len(), |i: int| uuid_text(ids[i]))
}

/// `true` or `false` as the API reads it.
pub open spec fn flag_text(flag: bool) -> Seq<char> {
    if flag {
        "true"@
    } else {
        "false"@
    }
}

/// The parameters of a query, in the order in which they were added.
#[derive(Debug)]
pub struct Query {
    pub pairs: Vec<(String, String)>,
}

impl View for Query {
    type V = Seq<(Seq<char>, Seq<char>)>;

    open spec fn view(&self) -> Seq<(Seq<char>, Seq<char>)> {
        self.pairs.deep_view()
    }
}

impl Query {
    /// A query without parameters.
    pub fn new() -> (query: Query)
        ensures
            query@ == Seq::<(Seq<char>, Seq<char>)>::empty(),
    {
        let query = Query { pairs: Vec::new() };
        assert(query@ =~= Seq::<(Seq<char>, Seq<char>)>::empty());
        query
    }

    /// Adds a parameter.
    pub fn set(&mut self, name: &str, value: String)
        ensures
            final(self)@ == old(self)@.push((name@, value@)),
    {
        let ghost before = self@;
        self.pairs.push((String::from_str(name), value));
        assert(self@ =~= before.push((name@, value@)));
    }

    /// Adds a parameter if there is a value for it.
    pub fn text(&mut self, name: &str, value: Option<String>)
        ensures
            final(self)@ == match value {
                Some(v) => old(self)@.push((name@, v@)),
                None => old(self)@,
            },
    {
        if let Some(v) = value {
            self.set(name, v);
        }
    }

    /// Adds a number in decimal if there is one.
    pub fn number(&mut self, name: &str, value: Option<u32>)
        ensures
            final(self)@ == match value {
                Some(n) => old(self)@.push((name@, decimal_digits(n as nat))),
                None => old(self)@,
            },
    {
        if let Some(n) = value {
            self.set(name, decimal_string(n as u64));
        }
    }

    /// Adds `true` or `false` if there is a flag.
    pub fn flag(&mut self, name: &str, value: Option<bool>)
        ensures
            final(self)@ == match value {
                Some(b) => old(self)@.push((name@, flag_text(b))),
                None => old(self)@,
            },
    {
        if let Some(b) = value {
            if b {
                self.set(name, String::from_str("true"));
            } else {
                self.set(name, String::from_str("false"));
            }
        }
    }

    /// Adds an identifier in its text form if there is one.
    pub fn id(&mut self, name: &str, value: Option<u128>)
        ensures
            final(self)@ == match value {
                Some(id) => old(self)@.push((name@, uuid_text(id))),
                None => old(self)@,
            },
    {
        if let Some(id) = value {
            self.set(name, tenant_text(id));
        }
    }

    /// Adds a list of values in one parameter, with commas between them, if
    /// there is a list.
    pub fn list(&mut self, name: &str, values: Option<Vec<String>>)
        ensures
            final(self)@ == match values {
                Some(v) => old(self)@.push((name@, joined(v.deep_view(), ","@))),
                None => old(self)@,
            },
    {
        if let Some(v) = values {
            proof {
                reveal_strlit(",");
            }
            self.set(name, join(&v, ","));
        }
    }

    /// Adds a list of identifiers in one parameter, with commas between
    /// them, if there is a list.
    pub fn ids(&mut self, name: &str, values: Option<Vec<u128>>)
        ensures
            final(self)@ == match values {
                Some(v) => old(self)@.push((name@, joined(id_texts(v@), ","@))),
                None => old(self)@,
            },
    {
        if let Some(v) = values {
            let mut texts: Vec<String> = Vec::new();
            let mut i: usize = 0;
            while i < v.len()
                invariant
                    i <= v.len(),
                    texts.deep_view() == id_texts(v@.take(i as int)),
                decreases v.len() - i,
            {
                let ghost before = texts.deep_view();
                texts.push(tenant_text(v[i]));
                proof {
                    assert(texts.deep_view() =~= before.push(uuid_text(v@[i as int])));
                    assert(id_texts(v@.take(i as int + 1)) =~= id_texts(v@.take(i as int)).push(
                        uuid_text(v@[i as int]),
                    ));
                }
                i += 1;
            }
            proof {
                assert(v@.take(v.len() as int) =~= v@);
            }
            self.set(name, join(&texts, ","));
        }
    }
}

/// How the resources of a write go into its body.
#[derive(Clone, Copy, Debug, PartialEq, Eq, Structural)]
pub enum BodyShape {
    /// The one resource by itself.
    Single,
    /// The resources as a list under the name of their collection.
    Wrapped,
}

/// A single resource is sent by itself; none, or more than one, are sent as
/// a list under the name of their collection.
pub fn body_shape(count: usize) -> (shape: BodyShape)
    ensures
        shape == if count == 1 {
            BodyShape::Single
        } else {
            BodyShape::Wrapped
        },
{
    if count == 1 {
        BodyShape::Single
    } else {
        BodyShape::Wrapped
    }
}

/// The headers every request carries: the tenant it is made for, and, where
/// a JSON answer is expected, that it is.
pub fn headers(tenant_id: TenantId, accept_json: bool) -> (list: Vec<(String, String)>)
    ensures
        list.deep_view() == if accept_json {
            seq![("xero-tenant-id"@, uuid_text(tenant_id)), ("Accept"@, "application/json"@)]
        } else {
            seq![("xero-tenant-id"@, uuid_text(tenant_id))]
        },
{
    let mut list: Vec<(String, String)> = Vec::new();
    list.push((String::from_str("xero-tenant-id"), tenant_text(tenant_id)));
    if accept_json {
        list.push((String::from_str("Accept"), String::from_str("application/json")));
        assert(list.deep_view() =~= seq![
            ("xero-tenant-id"@, uuid_text(tenant_id)),
            ("Accept"@, "application/json"@),
        ]);
    } else {
        assert(list.deep_view() =~= seq![("xero-tenant-id"@, uuid_text(tenant_id))]);
    }
    list
}

/// A status of the 200s.
pub open spec fn success(status: u16) -> bool {
    200 <= status < 300
}

/// Whether a response reports success.
pub fn is_success(status: u16) -> (ok: bool)
    ensures
        ok == success(status),
{
    200 <= status && status < 300
}

/// What a response stands for: its body, if its status reports success, and
/// else the error that the API has answered with, which keeps the status
/// and has the body for its message.
pub fn interpret(status: u16, body: String) -> (outcome: Result<String, XeroError>)
    ensures
        match outcome {
            Ok(text) => success(status) && text == body,
            Err(error) => {
                &&& !success(status)
                &&& error matches XeroError::Api { status: reported, message }
                &&& reported == status
                &&& message == body
            },
        },
{
    if is_success(status) {
        Ok(body)
    } else {
        Err(XeroError::Api { status, message: body })
    }
}

/// The error for a response that reports success and does not hold the
/// resource that was asked for.
pub fn not_found(what: &str) -> (error: XeroError)
    ensures
        error matches XeroError::Api { status, message } && status == NOT_FOUND && message@
            == what@ + " not found in response"@,
{
    XeroError::Api { status: NOT_FOUND, message: String::from_str(what).concat(" not found in response") }
}

} // verus!
