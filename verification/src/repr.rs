//! What an endpoint serves: typed bytes, as plain text or as JSON.
use vstd::prelude::*;
use vstd::string::{StrSliceExecFns, StringExecFns};
use vstd::utf8::encode_utf8;

verus! {

/// The type of a representation: a media type and its parameters, sorted by key.
#[derive(Debug, PartialEq, Eq)]
pub struct ReprType {
    /// The media type.
    pub media_type: String,
    /// The parameters, sorted by key.
    pub params: Vec<(String, String)>,
}

/// A [`ReprType`] as plain text.
#[verifier::ext_equal]
pub struct ReprTypeView {
    pub media_type: Seq<char>,
    pub params: Seq<(Seq<char>, Seq<char>)>,
}

impl DeepView for ReprType {
    type V = ReprTypeView;

    open spec fn deep_view(&self) -> ReprTypeView {
        ReprTypeView { media_type: self.media_type@, params: self.params.deep_view() }
    }
}

/// Parameters as they stand behind a media type: `;key=value` for each.
pub open spec fn params_text(params: Seq<(Seq<char>, Seq<char>)>) -> Seq<char>
    decreases params.len(),
{
    if params.len() == 0 {
        Seq::empty()
    } else {
        params_text(params.drop_last()) + ";"@ + params.last().0 + "="@ + params.last().1
    }
}

impl ReprTypeView {
    /// The type as one text: the media type with its parameters behind it.
    pub open spec fn canonical(self) -> Seq<char> {
        self.media_type + params_text(self.params)
    }
}

impl ReprType {
    /// The type as one text: the media type with its parameters behind it.
    pub fn canonical(&self) -> (s: String)
        ensures
            s@ == self.deep_view().canonical(),
    {
        let mut s = self.media_type.clone();
        let ghost all = self.params.deep_view();
        let mut i: usize = 0;
        assert(s@ =~= self.media_type@ + params_text(all.take(0)));
        while i < self.params.len()
            invariant
                i <= self.params.len(),
                all == self.params.deep_view(),
                s@ == self.media_type@ + params_text(all.take(i as int)),
            decreases self.params.len() - i,
        {
            s.append(";");
            s.append(self.params[i].0.as_str());
            s.append("=");
            s.append(self.params[i].1.as_str());
            assert(all.take(i + 1).drop_last() =~= all.take(i as int));
            assert(s@ =~= self.media_type@ + params_text(all.take(i + 1)));
            i = i + 1;
        }
        assert(all.take(i as int) =~= all);
        s
    }
}

/// A typed value that an endpoint serves.
#[derive(Debug, PartialEq, Eq)]
pub struct Representation {
    /// Its type.
    pub repr_type: ReprType,
    /// Its bytes.
    pub bytes: Vec<u8>,
}

/// A [`Representation`] as plain values.
#[verifier::ext_equal]
pub struct ReprView {
    pub repr_type: ReprTypeView,
    pub bytes: Seq<u8>,
}

impl DeepView for Representation {
    type V = ReprView;

    open spec fn deep_view(&self) -> ReprView {
        ReprView { repr_type: self.repr_type.deep_view(), bytes: self.bytes@ }
    }
}

/// The type of plain text in UTF-8.
pub open spec fn text_type() -> ReprTypeView {
    ReprTypeView { media_type: "text/plain"@, params: seq![("charset"@, "utf-8"@)] }
}

/// The type of JSON.
pub open spec fn json_type() -> ReprTypeView {
    ReprTypeView { media_type: "application/json"@, params: Seq::empty() }
}

/// A body served as plain text, or as JSON.
pub open spec fn body_as(body: Seq<char>, as_json: bool) -> ReprView {
    ReprView {
        repr_type: if as_json {
            json_type()
        } else {
            text_type()
        },
        bytes: encode_utf8(body),
    }
}

/// A body served as plain text.
pub fn text(body: String) -> (repr: Representation)
    ensures
        repr.deep_view() == body_as(body@, false),
{
    let mut params: Vec<(String, String)> = Vec::new();
    params.push(("charset".to_string(), "utf-8".to_string()));
    assert(params.deep_view() =~= seq![("charset"@, "utf-8"@)]);
    Representation {
        repr_type: ReprType { media_type: "text/plain".to_string(), params },
        bytes: body.as_str().as_bytes_vec(),
    }
}

/// A body served as JSON.
pub fn json(body: String) -> (repr: Representation)
    ensures
        repr.deep_view() == body_as(body@, true),
{
    let params: Vec<(String, String)> = Vec::new();
    assert(params.deep_view() =~= Seq::empty());
    Representation {
        repr_type: ReprType { media_type: "application/json".to_string(), params },
        bytes: body.as_str().as_bytes_vec(),
    }
}

/// The two types as one text each.
pub proof fn canonical_types()
    ensures
        text_type().canonical() == "text/plain;charset=utf-8"@,
        json_type().canonical() == "application/json"@,
{
    reveal_strlit("text/plain;charset=utf-8");
    reveal_strlit("text/plain");
    reveal_strlit("charset");
    reveal_strlit("utf-8");
    reveal_strlit(";");
    reveal_strlit("=");
    reveal_with_fuel(params_text, 2);
    assert(text_type().canonical() =~= "text/plain;charset=utf-8"@);
    assert(json_type().canonical() =~= "application/json"@);
}

} // verus!
