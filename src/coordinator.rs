//! Routing of open-file requests between the operating system's notification
//! and the user interface.

use vstd::prelude::*;
use crate::mailbox::{path_view, slot_after_op, taken_from, PendingOpenMailbox, SlotOp};
use crate::text::{chars_end_with, chars_of, ends_with, starts_with, strip_prefix};

verus! {

/// The scheme that marks an identifier as a local file.
pub open spec fn file_scheme() -> Seq<char> {
    seq!['f', 'i', 'l', 'e', ':', '/', '/']
}

/// Whether `path` carries one of the document suffixes the editor opens:
/// `.md`, `.markdown` or `.txt`.
pub open spec fn has_document_suffix(path: Seq<char>) -> bool {
    ||| ends_with(path, seq!['.', 'm', 'd'])
    ||| ends_with(path, seq!['.', 'm', 'a', 'r', 'k', 'd', 'o', 'w', 'n'])
    ||| ends_with(path, seq!['.', 't', 'x', 't'])
}

/// The still-encoded path of a local-file identifier, or `None` when the
/// identifier is not a local file.
pub open spec fn encoded_path_of(uri: Seq<char>) -> Option<Seq<char>> {
    if starts_with(uri, file_scheme()) {
        Some(uri.subrange(file_scheme().len() as int, uri.len() as int))
    } else {
        None
    }
}

/// What percent-decoding `s` as UTF-8 gives: `None` when the decoded bytes are
/// not UTF-8.
pub uninterp spec fn percent_decoded(s: Seq<char>) -> Option<Seq<char>>;

/// The path kept for an encoded path whose decoding gave `decoded`: the decoded
/// form, or the encoded one when decoding failed.
pub open spec fn resolved_path(encoded: Seq<char>, decoded: Option<Seq<char>>) -> Seq<char> {
    match decoded {
        Some(d) => d,
        None => encoded,
    }
}

/// The document path that `encoded`, decoded as `decoded`, stands for, if the
/// editor opens it.
pub open spec fn accepted_candidate(encoded: Seq<char>, decoded: Option<Seq<char>>) -> Option<
    Seq<char>,
> {
    let p = resolved_path(encoded, decoded);
    if has_document_suffix(p) {
        Some(p)
    } else {
        None
    }
}

/// The document path that the identifier `uri` requests, if any.
pub open spec fn accepted_path_of(uri: Seq<char>) -> Option<Seq<char>> {
    match encoded_path_of(uri) {
        Some(e) => accepted_candidate(e, percent_decoded(e)),
        None => None,
    }
}

/// The document paths that `uris` request, in order.
pub open spec fn accepted_paths(uris: Seq<Seq<char>>) -> Seq<Seq<char>>
    decreases uris.len(),
{
    if uris.len() == 0 {
        Seq::empty()
    } else {
        let earlier = accepted_paths(uris.drop_last());
        match accepted_path_of(uris.last()) {
            Some(p) => earlier.push(p),
            None => earlier,
        }
    }
}

/// The paths pushed to the interface by a notification carrying `uris`.
pub open spec fn pushed_paths(uris: Seq<Seq<char>>, ui_live: bool) -> Seq<Seq<char>> {
    if ui_live {
        accepted_paths(uris)
    } else {
        Seq::empty()
    }
}

/// The mailbox's content after a notification carrying `uris`, starting from
/// `slot`: the last accepted path when no interface was reachable.
pub open spec fn slot_after_notification(
    slot: Option<Seq<char>>,
    uris: Seq<Seq<char>>,
    ui_live: bool,
) -> Option<Seq<char>> {
    let accepted = accepted_paths(uris);
    if ui_live || accepted.len() == 0 {
        slot
    } else {
        Some(accepted.last())
    }
}

/// The views of a sequence of strings.
pub open spec fn views_of(v: Seq<String>) -> Seq<Seq<char>> {
    v.map_values(|s: String| s@)
}

/// Relies on `urlencoding::decode`: the percent-decoded string, or `None` when
/// the decoded bytes are not UTF-8. A string without `%` decodes to itself.
#[verifier::external_body]
fn decode_percent(s: &str) -> (r: Option<String>)
    ensures
        path_view(r) == percent_decoded(s@),
        (forall|i: int| 0 <= i < s@.len() ==> s@[i] != '%') ==> path_view(r) == Some(s@),
{
    urlencoding::decode(s).ok().map(|d| d.into_owned())
}

/// Whether `path` carries one of the document suffixes the editor opens.
pub fn is_document_path(path: &str) -> (r: bool)
    ensures
        r == has_document_suffix(path@),
{
    let chars = chars_of(path);
    let md: Vec<char> = vec!['.', 'm', 'd'];
    let markdown: Vec<char> = vec!['.', 'm', 'a', 'r', 'k', 'd', 'o', 'w', 'n'];
    let txt: Vec<char> = vec!['.', 't', 'x', 't'];
    assert(md@ =~= seq!['.', 'm', 'd']);
    assert(markdown@ =~= seq!['.', 'm', 'a', 'r', 'k', 'd', 'o', 'w', 'n']);
    assert(txt@ =~= seq!['.', 't', 'x', 't']);
    chars_end_with(&chars, &md) || chars_end_with(&chars, &markdown) || chars_end_with(
        &chars,
        &txt,
    )
}

/// The still-encoded path of a local-file identifier, or `None` when `uri`
/// does not use the file scheme.
pub fn encoded_path(uri: &str) -> (r: Option<String>)
    ensures
        path_view(r) == encoded_path_of(uri@),
{
    proof {
        reveal_strlit("file://");
    }
    assert("file://"@ =~= file_scheme());
    strip_prefix(uri, "file://")
}

/// Chooses the path for `encoded` given the outcome `decoded` of decoding it,
/// and keeps it only if it is a document the editor opens.
pub fn accept_candidate(encoded: String, decoded: Option<String>) -> (r: Option<String>)
    ensures
        path_view(r) == accepted_candidate(encoded@, path_view(decoded)),
{
    let path = match decoded {
        Some(d) => d,
        None => encoded,
    };
    if is_document_path(path.as_str()) {
        Some(path)
    } else {
        None
    }
}

/// The decoded document path requested by the identifier `uri`, if the
/// identifier is a local file with a document suffix.
pub fn accepted_path(uri: &str) -> (r: Option<String>)
    ensures
        path_view(r) == accepted_path_of(uri@),
{
    match encoded_path(uri) {
        Some(encoded) => {
            let decoded = decode_percent(encoded.as_str());
            accept_candidate(encoded, decoded)
        },
        None => None,
    }
}

/// Routes one accepted path: handed back for immediate delivery when an
/// interface is reachable, stored in the mailbox otherwise.
pub fn route_path(mailbox: &mut PendingOpenMailbox, path: String, ui_live: bool) -> (r: Option<
    String,
>)
    ensures
        ui_live ==> path_view(r) == Some(path@) && final(mailbox)@ == old(mailbox)@,
        !ui_live ==> r is None && final(mailbox)@ == slot_after_op(
            old(mailbox)@,
            SlotOp::Store(path@),
        ),
{
    if ui_live {
        Some(path)
    } else {
        mailbox.store(path);
        None
    }
}

/// Handles one open-file notification carrying `uris`. Identifiers that are
/// not local files, or that lack a document suffix, are skipped. When an
/// interface is reachable, the accepted paths are returned, in order, for
/// immediate delivery and the mailbox is left as it was; otherwise each is
/// stored in turn, so the last one stays pending, and nothing is returned.
pub fn handle_open_notification(
    mailbox: &mut PendingOpenMailbox,
    uris: &Vec<String>,
    ui_live: bool,
) -> (pushed: Vec<String>)
    ensures
        views_of(pushed@) == pushed_paths(views_of(uris@), ui_live),
        final(mailbox)@ == slot_after_notification(old(mailbox)@, views_of(uris@), ui_live),
{
    let ghost start = mailbox@;
    let mut pushed: Vec<String> = Vec::new();
    let mut i: usize = 0;
    while i < uris.len()
        invariant
            i <= uris@.len(),
            views_of(pushed@) == pushed_paths(views_of(uris@.subrange(0, i as int)), ui_live),
            mailbox@ == slot_after_notification(
                start,
                views_of(uris@.subrange(0, i as int)),
                ui_live,
            ),
        decreases uris@.len() - i,
    {
        let ghost before = views_of(uris@.subrange(0, i as int));
        let ghost after = views_of(uris@.subrange(0, i + 1));
        assert(after.drop_last() =~= before);
        assert(after.last() == uris@[i as int]@);
        match accepted_path(uris[i].as_str()) {
            Some(path) => {
                if let Some(p) = route_path(mailbox, path, ui_live) {
                    pushed.push(p);
                    assert(views_of(pushed@) =~= pushed_paths(after, ui_live));
                }
            },
            None => {},
        }
        i = i + 1;
    }
    assert(uris@.subrange(0, uris@.len() as int) =~= uris@);
    pushed
}

/// The interface's ready query: the path that arrived while no interface was
/// reachable, if any. The mailbox is empty afterwards.
pub fn get_opened_file(mailbox: &mut PendingOpenMailbox) -> (r: Option<String>)
    ensures
        path_view(r) == taken_from(old(mailbox)@),
        final(mailbox)@ == slot_after_op(old(mailbox)@, SlotOp::Take),
{
    mailbox.take()
}

/// A notification that arrives while an interface is reachable pushes every
/// accepted path and stores none: the mailbox keeps what it held, so a ready
/// query made afterwards on a mailbox that was empty returns nothing.
pub proof fn lemma_live_delivery_stores_nothing(slot: Option<Seq<char>>, uris: Seq<Seq<char>>)
    ensures
        pushed_paths(uris, true) == accepted_paths(uris),
        slot_after_notification(slot, uris, true) == slot,
        slot is None ==> taken_from(slot_after_notification(slot, uris, true)) is None,
{
}

/// A notification that arrives while no interface is reachable pushes nothing,
/// and a later ready query returns the last path it accepted, decoded.
pub proof fn lemma_pending_delivery(slot: Option<Seq<char>>, uris: Seq<Seq<char>>)
    requires
        accepted_paths(uris).len() > 0,
    ensures
        pushed_paths(uris, false).len() == 0,
        taken_from(slot_after_notification(slot, uris, false)) == Some(
            accepted_paths(uris).last(),
        ),
{
}

/// A notification with one accepted identifier, arriving while no interface is
/// reachable, leaves exactly that identifier's decoded path for the ready query.
pub proof fn lemma_pending_single(slot: Option<Seq<char>>, uri: Seq<char>)
    requires
        accepted_path_of(uri) is Some,
    ensures
        taken_from(slot_after_notification(slot, seq![uri], false)) == accepted_path_of(uri),
        accepted_path_of(uri) == Some(
            resolved_path(
                encoded_path_of(uri)->0,
                percent_decoded(encoded_path_of(uri)->0),
            ),
        ),
{
    let uris = seq![uri];
    assert(uris.drop_last() =~= Seq::<Seq<char>>::empty());
    assert(uris.last() == uri);
}

} // verus!
