use vstd::prelude::*;
use crate::engine::{render_template, rendered};
use crate::errors::{Error, ErrorKind, messages_of};
use crate::paths::{joined, join_path, rel_of, relative_to_root, under_root};

verus! {

/// What the caller must do in the output tree for one template entry:
/// create a directory, or create a file with the given contents.
#[derive(Debug, Clone, PartialEq, Eq)]
pub enum Action {
    CreateDir { path: String },
    WriteFile { path: String, contents: String },
}

/// The context message wrapped around a relative path that fails to render.
pub open spec fn path_render_message(rel: Seq<char>) -> Seq<char> {
    "failed to render template "@ + rel
}

/// The context message wrapped around file contents that fail to render.
pub open spec fn content_render_message(rel: Seq<char>) -> Seq<char> {
    "failed to render contents of "@ + rel
}

/// The view of the optional file contents handed in for one entry.
pub open spec fn contents_view(contents: Option<&str>) -> Option<Seq<char>> {
    match contents {
        Some(t) => Some(t@),
        None => None,
    }
}

/// The outcome owed for one template entry: with `rel` the entry's path
/// relative to the template root, the output path is `rel` rendered against
/// the document and joined onto the target; a directory entry becomes a
/// directory-creation action, a file entry becomes a file write of its
/// rendered contents, and a failed rendering becomes an error of the
/// matching kind whose message chain opens by naming the relative path and
/// carries the engine's message (whose text the engine does not promise)
/// as its one cause.
pub open spec fn entry_result_matches(
    r: Result<Action, Error>,
    root: Seq<char>,
    target: Seq<char>,
    entry: Seq<char>,
    contents: Option<Seq<char>>,
    ctx: Seq<char>,
) -> bool {
    let rel = rel_of(entry, root);
    match rendered(rel, ctx) {
        Err(_) => {
            &&& r matches Err(e)
            &&& e.kind == ErrorKind::PathRender
            &&& messages_of(e).len() == 2
            &&& messages_of(e)[0] == path_render_message(rel)
        },
        Ok(outrel) => match contents {
            None => {
                &&& r matches Ok(a)
                &&& a matches Action::CreateDir { path }
                &&& path@ == joined(target, outrel)
            },
            Some(text) => match rendered(text, ctx) {
                Err(_) => {
                    &&& r matches Err(e)
                    &&& e.kind == ErrorKind::ContentRender
                    &&& messages_of(e).len() == 2
                    &&& messages_of(e)[0] == content_render_message(rel)
                },
                Ok(body) => {
                    &&& r matches Ok(a)
                    &&& a matches Action::WriteFile { path, contents: c }
                    &&& path@ == joined(target, outrel)
                    &&& c@ == body
                },
            },
        },
    }
}

/// The mathematical content of an action: whether it is a directory
/// creation, the output path, and the contents to write (empty for a
/// directory).
pub open spec fn action_view(a: Action) -> (bool, Seq<char>, Seq<char>) {
    match a {
        Action::CreateDir { path } => (true, path@, Seq::empty()),
        Action::WriteFile { path, contents } => (false, path@, contents@),
    }
}

/// Law: the outcome for one entry is a function of the inputs alone. Two
/// results the generator may return for the same template root, target,
/// entry, contents and document agree: both succeed or both fail, two
/// successes are the same action on the same path with the same contents,
/// and two failures carry the same kind, chains of the same length, and
/// the same opening message (the wrapped engine message underneath is the
/// one part the engine does not promise). Run twice over the same tree
/// and document, the generator therefore asks for byte-identical output.
pub proof fn lemma_entry_outcome_deterministic(
    r1: Result<Action, Error>,
    r2: Result<Action, Error>,
    root: Seq<char>,
    target: Seq<char>,
    entry: Seq<char>,
    contents: Option<Seq<char>>,
    ctx: Seq<char>,
)
    requires
        entry_result_matches(r1, root, target, entry, contents, ctx),
        entry_result_matches(r2, root, target, entry, contents, ctx),
    ensures
        r1 is Ok <==> r2 is Ok,
        (r1 is Ok && r2 is Ok) ==> action_view(r1->Ok_0) == action_view(r2->Ok_0),
        (r1 is Err && r2 is Err) ==> (r1->Err_0.kind == r2->Err_0.kind && messages_of(
            r1->Err_0,
        ).len() == messages_of(r2->Err_0).len() && messages_of(r1->Err_0)[0] == messages_of(
            r2->Err_0,
        )[0]),
{
    let rel = rel_of(entry, root);
    match rendered(rel, ctx) {
        Err(_) => {
            assert(r1 is Err && r2 is Err);
        },
        Ok(orel) => match contents {
            None => {
                assert(r1 is Ok && r2 is Ok);
            },
            Some(text) => match rendered(text, ctx) {
                Err(_) => {
                    assert(r1 is Err && r2 is Err);
                },
                Ok(body) => {
                    assert(r1 is Ok && r2 is Ok);
                },
            },
        },
    }
}

/// Law: kinds are preserved and output paths are the rendered relative
/// paths. Whenever the templates an entry carries render, a directory
/// entry yields exactly a directory creation, and a file entry exactly a
/// file write of its rendered contents, at the rendered relative path
/// joined onto the target.
pub proof fn lemma_rendered_entry_mirrors_tree(
    r: Result<Action, Error>,
    root: Seq<char>,
    target: Seq<char>,
    entry: Seq<char>,
    contents: Option<Seq<char>>,
    ctx: Seq<char>,
)
    requires
        entry_result_matches(r, root, target, entry, contents, ctx),
    ensures
        (contents is None && rendered(rel_of(entry, root), ctx) is Ok) ==> ({
            &&& r matches Ok(a)
            &&& a matches Action::CreateDir { path }
            &&& path@ == joined(target, rendered(rel_of(entry, root), ctx)->Ok_0)
        }),
        (contents is Some && rendered(rel_of(entry, root), ctx) is Ok && rendered(
            contents->Some_0,
            ctx,
        ) is Ok) ==> ({
            &&& r matches Ok(a)
            &&& a matches Action::WriteFile { path, contents: c }
            &&& path@ == joined(target, rendered(rel_of(entry, root), ctx)->Ok_0)
            &&& c@ == rendered(contents->Some_0, ctx)->Ok_0
        }),
{
}

/// Law: a template that refers to what the document does not hold fails
/// the run. When the entry's relative path does not render, the entry
/// yields no action but an error of the path-render kind; when the path
/// renders and a file entry's contents do not, an error of the
/// content-render kind. The caller performs no action for the entry in
/// either case.
pub proof fn lemma_render_failure_is_error(
    r: Result<Action, Error>,
    root: Seq<char>,
    target: Seq<char>,
    entry: Seq<char>,
    contents: Option<Seq<char>>,
    ctx: Seq<char>,
)
    requires
        entry_result_matches(r, root, target, entry, contents, ctx),
    ensures
        rendered(rel_of(entry, root), ctx) is Err ==> ({
            &&& r matches Err(e)
            &&& e.kind == ErrorKind::PathRender
        }),
        (rendered(rel_of(entry, root), ctx) is Ok && contents is Some && rendered(
            contents->Some_0,
            ctx,
        ) is Err) ==> ({
            &&& r matches Err(e)
            &&& e.kind == ErrorKind::ContentRender
        }),
{
}

/// Decide what one entry of the template tree asks of the output tree.
///
/// `entry` is the entry's own path as the walk reports it, below `root`;
/// `contents` holds the full text of a file entry and nothing for a
/// directory entry; `ctx` is the JSON form of the specification document.
pub fn process_entry(
    root: &str,
    target: &str,
    entry: &str,
    contents: Option<&str>,
    ctx: &str,
) -> (r: Result<Action, Error>)
    requires
        under_root(entry@, root@),
    ensures
        entry_result_matches(r, root@, target@, entry@, contents_view(contents), ctx@),
{
    let rel = match relative_to_root(entry, root) {
        Some(s) => s,
        None => vstd::pervasive::unreached(),
    };
    match render_template(rel.as_str(), ctx) {
        Err(m) => {
            let ghost mm = m@;
            let msg = String::from_str("failed to render template ").concat(rel.as_str());
            let e = Error::with_cause(
                ErrorKind::PathRender,
                msg,
                Error::new(ErrorKind::PathRender, m),
            );
            proof {
                assert(messages_of(e) =~= seq![path_render_message(rel_of(entry@, root@)), mm]);
            }
            Err(e)
        },
        Ok(outrel) => {
            let outpath = join_path(target, outrel.as_str());
            match contents {
                None => Ok(Action::CreateDir { path: outpath }),
                Some(text) => match render_template(text, ctx) {
                    Err(m) => {
                        let ghost mm = m@;
                        let msg = String::from_str("failed to render contents of ").concat(
                            rel.as_str(),
                        );
                        let e = Error::with_cause(
                            ErrorKind::ContentRender,
                            msg,
                            Error::new(ErrorKind::ContentRender, m),
                        );
                        proof {
                            assert(messages_of(e) =~= seq![
                                content_render_message(rel_of(entry@, root@)),
                                mm,
                            ]);
                        }
                        Err(e)
                    },
                    Ok(body) => Ok(Action::WriteFile { path: outpath, contents: body }),
                },
            }
        },
    }
}

} // verus!
