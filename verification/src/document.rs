//! Decoding a whole file, from a raw value or from JSON text.

use vstd::prelude::*;
use crate::error::{type_mismatch, view_of, DecodeError, DecodeErrorView, Decoded};
use crate::field::{
    expect_object, int_field, members_of, read_int_field, read_members, read_required,
    read_text_field, required, text_field,
};
use crate::file::{components_view, Component, ComponentView, File, FileView, Node};
use crate::json::{parse, parsed, SyntaxError};
use crate::node::node_of;
use crate::raw::{members_view, same_text, Json, Raw};
use crate::shape::component_of;

verus! {

/// The components that `members` describe, each under its key and in
/// order: the decoded components, or the error of the first member that
/// fails. A failure inside a component names the component's key as the
/// place.
pub open spec fn components_of(members: Seq<(Seq<char>, Json)>) -> Decoded<
    Seq<(Seq<char>, ComponentView)>,
>
    decreases members.len(),
{
    if members.len() == 0 {
        Ok(Seq::empty())
    } else {
        match components_of(members.drop_last()) {
            Ok(done) => match component_of(members.last().1, members.last().0) {
                Ok(c) => Ok(done.push((members.last().0, c))),
                Err(e) => Err(e),
            },
            Err(e) => Err(e),
        }
    }
}

/// Once a prefix of the members has failed, the whole fails with the same error.
pub proof fn lemma_components_keep_first_error(members: Seq<(Seq<char>, Json)>, n: int)
    requires
        0 <= n <= members.len(),
        components_of(members.take(n)) is Err,
    ensures
        components_of(members) == components_of(members.take(n)),
    decreases members.len(),
{
    if n == members.len() {
        assert(members.take(n) =~= members);
    } else {
        assert(members.drop_last().take(n) =~= members.take(n));
        lemma_components_keep_first_error(members.drop_last(), n);
    }
}

/// The file that the object standing at `field` describes. All eight
/// fields are required: the strings `name`, `role`, `lastModified`,
/// `thumbnailUrl` and `version`, the node `document`, the object
/// `components` and the integer `schemaVersion`.
pub open spec fn file_of(raw: Json, field: Seq<char>) -> Decoded<FileView> {
    let name = text_field(raw, "name"@, "File"@);
    let role = text_field(raw, "role"@, "File"@);
    let last_modified = text_field(raw, "lastModified"@, "File"@);
    let thumbnail_url = text_field(raw, "thumbnailUrl"@, "File"@);
    let version = text_field(raw, "version"@, "File"@);
    let document = match required(raw, "document"@, "File"@) {
        Ok(v) => node_of(v, "document"@),
        Err(e) => Err(e),
    };
    let components = match required(raw, "components"@, "File"@) {
        Ok(v) => match members_of(v, "components"@) {
            Ok(members) => components_of(members),
            Err(e) => Err(e),
        },
        Err(e) => Err(e),
    };
    let schema_version = int_field(raw, "schemaVersion"@, "File"@);
    if !(raw is Object) {
        Err(type_mismatch(field, "object"@, raw))
    } else if name is Err {
        Err(name->Err_0)
    } else if role is Err {
        Err(role->Err_0)
    } else if last_modified is Err {
        Err(last_modified->Err_0)
    } else if thumbnail_url is Err {
        Err(thumbnail_url->Err_0)
    } else if version is Err {
        Err(version->Err_0)
    } else if document is Err {
        Err(document->Err_0)
    } else if components is Err {
        Err(components->Err_0)
    } else if schema_version is Err {
        Err(schema_version->Err_0)
    } else {
        Ok(
            FileView {
                name: name->Ok_0,
                role: role->Ok_0,
                last_modified: last_modified->Ok_0,
                thumbnail_url: thumbnail_url->Ok_0,
                version: version->Ok_0,
                document: document->Ok_0,
                components: components->Ok_0,
                schema_version: schema_version->Ok_0,
            },
        )
    }
}

/// Decodes the components of a file, the members of the object `components`.
pub fn decode_components(members: &Vec<(String, Raw)>) -> (r: Result<
    Vec<(String, Component)>,
    DecodeError,
>)
    ensures
        match r {
            Ok(out) => components_of(members_view(members@)) == Ok::<_, DecodeErrorView>(
                components_view(out@),
            ),
            Err(e) => components_of(members_view(members@)) == Err::<
                Seq<(Seq<char>, ComponentView)>,
                _,
            >(e@),
        },
{
    let ghost all = members_view(members@);
    let mut out: Vec<(String, Component)> = Vec::new();
    let mut i: usize = 0;
    proof {
        assert(all.take(0) =~= Seq::<(Seq<char>, Json)>::empty());
        assert(components_view(out@) =~= Seq::<(Seq<char>, ComponentView)>::empty());
    }
    while i < members.len()
        invariant
            i <= members.len(),
            all == members_view(members@),
            components_of(all.take(i as int)) == Ok::<_, DecodeErrorView>(components_view(out@)),
        decreases members.len() - i,
    {
        proof {
            assert(all.take(i + 1).drop_last() =~= all.take(i as int));
            assert(all.take(i + 1).last() == (members@[i as int].0@, members@[i as int].1@));
        }
        let key = &members[i].0;
        match Component::decode(&members[i].1, key.as_str()) {
            Ok(c) => {
                let entry = (key.clone(), c);
                proof {
                    assert(components_view(out@.push(entry)) =~= components_view(out@).push(
                        (entry.0@, entry.1@),
                    ));
                }
                out.push(entry);
            },
            Err(e) => {
                proof {
                    lemma_components_keep_first_error(all, i + 1);
                }
                return Err(e);
            },
        }
        i += 1;
    }
    assert(all.take(i as int) =~= all);
    Ok(out)
}

/// The component that the last entry under `key` holds, if there is one.
pub open spec fn component_named(
    components: Seq<(Seq<char>, ComponentView)>,
    key: Seq<char>,
) -> Option<
    ComponentView,
>
    decreases components.len(),
{
    if components.len() == 0 {
        None
    } else if components.last().0 == key {
        Some(components.last().1)
    } else {
        component_named(components.drop_last(), key)
    }
}

impl File {
    /// Decodes the object standing at `field`.
    pub fn decode(raw: &Raw, field: &str) -> (r: Result<File, DecodeError>)
        ensures
            view_of(r) == file_of(raw@, field@),
    {
        expect_object(raw, field)?;
        let name = read_text_field(raw, "name", "File")?;
        let role = read_text_field(raw, "role", "File")?;
        let last_modified = read_text_field(raw, "lastModified", "File")?;
        let thumbnail_url = read_text_field(raw, "thumbnailUrl", "File")?;
        let version = read_text_field(raw, "version", "File")?;
        let document = Node::decode(read_required(raw, "document", "File")?, "document")?;
        let components = decode_components(
            read_members(read_required(raw, "components", "File")?, "components")?,
        )?;
        let schema_version = read_int_field(raw, "schemaVersion", "File")?;
        Ok(
            File {
                name,
                role,
                last_modified,
                thumbnail_url,
                version,
                document,
                components,
                schema_version,
            },
        )
    }

    /// The component under `key`; where the key occurs more than once, the
    /// last entry.
    pub fn component(&self, key: &str) -> (r: Option<&Component>)
        ensures
            match r {
                Some(c) => component_named(self@.components, key@) == Some(c@),
                None => component_named(self@.components, key@) is None,
            },
    {
        let ghost all = self@.components;
        let mut i: usize = self.components.len();
        assert(all.take(i as int) =~= all);
        while i > 0
            invariant
                i <= self.components.len(),
                all == components_view(self.components@),
                all == self@.components,
                component_named(all, key@) == component_named(all.take(i as int), key@),
            decreases i,
        {
            i -= 1;
            proof {
                assert(all.take(i + 1).drop_last() =~= all.take(i as int));
                assert(all.take(i + 1).last() == all[i as int]);
            }
            if same_text(self.components[i].0.as_str(), key) {
                return Some(&self.components[i].1);
            }
        }
        None
    }
}

/// The name under which errors speak of the root of a document.
pub open spec fn root() -> Seq<char> {
    "file"@
}

/// Decodes a raw document into a file.
///
/// The result is the file that the document describes, or the first
/// failure met: fields are read in the order in which each record lists
/// them, a node before its children, and children from first to last.
pub fn decode(raw: &Raw) -> (r: Result<File, DecodeError>)
    ensures
        view_of(r) == file_of(raw@, root()),
{
    File::decode(raw, "file")
}

/// Why a text could not be read as a file.
#[derive(Debug)]
pub enum ReadError {
    /// The text is not JSON.
    Syntax(SyntaxError),
    /// The text is JSON, but not a file of this schema.
    Schema(DecodeError),
}

/// The outcome of reading a text: what `decode` makes of the tree parsed
/// from it, or `None` where the text is not JSON.
pub open spec fn read_of(text: Seq<char>) -> Option<Decoded<FileView>> {
    match parsed(text) {
        Some(tree) => Some(file_of(tree, root())),
        None => None,
    }
}

/// What an outcome of `decode_str` says, the cause of a syntax error aside.
pub open spec fn outcome_of(r: Result<File, ReadError>) -> Option<Decoded<FileView>> {
    match r {
        Ok(file) => Some(Ok(file@)),
        Err(ReadError::Schema(e)) => Some(Err(e@)),
        Err(ReadError::Syntax(_)) => None,
    }
}

/// Reads a JSON text as a file: parses it, then decodes the tree.
pub fn decode_str(text: &str) -> (r: Result<File, ReadError>)
    ensures
        outcome_of(r) == read_of(text@),
{
    match parse(text) {
        Ok(raw) => match decode(&raw) {
            Ok(file) => Ok(file),
            Err(e) => Err(ReadError::Schema(e)),
        },
        Err(e) => Err(ReadError::Syntax(e)),
    }
}

/// Decoding is stable: whatever two runs of `decode` hand back for raw
/// documents with the same content, the two outcomes have the same content.
pub proof fn lemma_decoding_is_stable(
    first: Raw,
    second: Raw,
    r1: Result<File, DecodeError>,
    r2: Result<File, DecodeError>,
)
    requires
        first@ == second@,
        view_of(r1) == file_of(first@, root()),
        view_of(r2) == file_of(second@, root()),
    ensures
        view_of(r1) == view_of(r2),
        r1 matches Ok(a) ==> r2 matches Ok(b) && a@ == b@,
{
}

/// Reading is stable: whatever two runs of `decode_str` hand back for the
/// same text, both fail or both succeed, and with the same content.
pub proof fn lemma_reading_is_stable(
    text: Seq<char>,
    r1: Result<File, ReadError>,
    r2: Result<File, ReadError>,
)
    requires
        outcome_of(r1) == read_of(text),
        outcome_of(r2) == read_of(text),
    ensures
        outcome_of(r1) == outcome_of(r2),
        r1 matches Ok(a) ==> r2 matches Ok(b) && a@ == b@,
{
}

} // verus!
