//! Laws of the build: what holds of every configuration, registry and
//! sequence of events.
use vstd::prelude::*;

use crate::config::{absorbed, ConfigView, HEADER_DIR};
use crate::descriptor::descriptor_text;
use crate::paths::{forward_slashes, join};
use crate::registry::{foreign_entries, lists, EntryView};
use crate::session::{
    invocation, next_action, next_config, session_actions, ActionView, EventView, Phase,
    LIB_DIR, LINK_LIB_DIRECTIVE, LINK_SEARCH_DIRECTIVE, PROFILE_VARIABLE,
};
use crate::config::LinkType;

verus! {

/// The description is a function of the configuration's name, root, link
/// kind, definitions, search paths and libraries: generated twice from the
/// same settings it is the same text, character for character.
pub proof fn lemma_descriptor_deterministic(a: ConfigView, b: ConfigView)
    requires
        a.name == b.name,
        a.root == b.root,
        a.kind == b.kind,
        a.defines == b.defines,
        a.link_paths == b.link_paths,
        a.include_paths == b.include_paths,
        a.libs == b.libs,
    ensures
        descriptor_text(a) == descriptor_text(b),
{
}

/// One action per event.
proof fn lemma_session_actions_len(v: ConfigView, events: Seq<EventView>)
    ensures
        session_actions(v, events).len() == events.len(),
    decreases events.len(),
{
    if events.len() > 0 {
        lemma_session_actions_len(next_config(v, events[0]), events.drop_first());
    }
}

/// The first action answers the first event; the rest are those of the
/// session that follows.
proof fn lemma_session_actions_unfold(v: ConfigView, events: Seq<EventView>)
    requires
        events.len() > 0,
    ensures
        session_actions(v, events).len() == events.len(),
        session_actions(v, events)[0] == next_action(v, events[0]),
        forall|k: int|
            1 <= k < events.len() ==> #[trigger] session_actions(v, events)[k] == session_actions(
                next_config(v, events[0]),
                events.drop_first(),
            )[k - 1],
{
    lemma_session_actions_len(v, events);
    lemma_session_actions_len(next_config(v, events[0]), events.drop_first());
}

/// Once the tool has been asked to run, a session only publishes and
/// finishes: it never scans the registry, writes a description or runs the
/// tool again.
pub proof fn lemma_after_tool(v: ConfigView, events: Seq<EventView>)
    requires
        v.phase == Phase::ToolFinished || v.phase == Phase::Published || v.phase == Phase::Done,
    ensures
        forall|k: int|
            0 <= k < events.len() ==> match #[trigger] session_actions(v, events)[k] {
                None => true,
                Some(ActionView::Publish(_, _)) => true,
                Some(ActionView::Finish(_)) => true,
                _ => false,
            },
    decreases events.len(),
{
    if events.len() > 0 {
        let w = next_config(v, events[0]);
        lemma_after_tool(w, events.drop_first());
        lemma_session_actions_unfold(v, events);
    }
}

/// Descriptor caching: a session that, after scanning the registry, learns
/// that a description already stands in the output directory goes straight
/// to the tool with that directory, and never writes a description, whatever
/// follows.
pub proof fn lemma_cached_descriptor_kept(v: ConfigView, events: Seq<EventView>)
    requires
        v.phase == Phase::OutputChecked,
        events.len() > 0,
        events[0] == EventView::Found(true),
    ensures
        session_actions(v, events)[0] == Some(ActionView::RunTool(invocation(v, v.out_dir))),
        forall|k: int|
            0 <= k < events.len() ==> !(#[trigger] session_actions(v, events)[k] matches Some(
                ActionView::WriteDescriptor(_, _),
            )),
{
    let w = next_config(v, events[0]);
    lemma_after_tool(w, events.drop_first());
    lemma_session_actions_unfold(v, events);
}

/// A hand-written description at the project root overrides generation: the
/// tool runs on the root with the profile and the definitions alone, and the
/// session never scans the registry nor writes a description, whatever follows.
pub proof fn lemma_hand_written_override(v: ConfigView, events: Seq<EventView>)
    requires
        v.phase == Phase::RootChecked,
        events.len() > 0,
        events[0] == EventView::Found(true),
    ensures
        session_actions(v, events)[0] == Some(ActionView::RunTool(invocation(v, v.root))),
        invocation(v, v.root).bindings == seq![(PROFILE_VARIABLE@, v.profile)] + v.defines,
        forall|k: int|
            0 <= k < events.len() ==> match #[trigger] session_actions(v, events)[k] {
                Some(ActionView::ScanRegistry(_)) => false,
                Some(ActionView::WriteDescriptor(_, _)) => false,
                _ => true,
            },
{
    let w = next_config(v, events[0]);
    lemma_after_tool(w, events.drop_first());
    lemma_session_actions_unfold(v, events);
}

/// Registry round trip: once package `p` has published its output `o`, a
/// package of another name that scans a listing of the registry links
/// against `p`, and searches `o`'s `lib` and header directories, whether it
/// then finds a description already in its output directory or generates one.
pub proof fn lemma_registry_round_trip(
    registry: Map<Seq<char>, Seq<char>>,
    p: Seq<char>,
    o: Seq<char>,
    q: ConfigView,
    listing: Seq<EntryView>,
    cached: bool,
)
    requires
        q.name != p,
        q.phase == Phase::RegistryScanned,
        lists(listing, registry.insert(p, o)),
    ensures
        ({
            let after = next_config(next_config(q, EventView::Scanned(listing)), EventView::Found(cached));
            &&& after.libs.contains(p)
            &&& after.link_paths.contains(join(forward_slashes(o), LIB_DIR@))
            &&& after.include_paths.contains(join(forward_slashes(o), HEADER_DIR@))
        }),
{
    broadcast use vstd::seq_lib::group_filter_ensures;

    let m = registry.insert(p, o);
    assert(m.contains_key(p));
    let i = choose|i: int| 0 <= i < listing.len() && listing[i].name == p;
    assert(listing[i].location == o);
    let pred = |e: EntryView| e.name != q.name;
    let found = foreign_entries(listing, q.name);
    assert(found == listing.filter(pred));
    assert(listing.filter(pred).contains(listing[i]));
    let j = choose|j: int| 0 <= j < found.len() && found[j] == listing[i];
    let a = absorbed(q, listing);
    let after = next_config(next_config(q, EventView::Scanned(listing)), EventView::Found(cached));
    assert(after.libs == a.libs && after.link_paths == a.link_paths && after.include_paths
        == a.include_paths);
    assert(a.libs[q.libs.len() + j] == p);
    assert(a.link_paths[q.link_paths.len() + j] == join(forward_slashes(o), LIB_DIR@));
    assert(a.include_paths[q.include_paths.len() + j] == join(forward_slashes(o), HEADER_DIR@));
}

/// Self-exclusion: records under the package's own name are passed over, so
/// a package never links against itself, and a registry that holds only its
/// own record changes nothing.
pub proof fn lemma_self_exclusion(v: ConfigView, entries: Seq<EntryView>)
    ensures
        forall|k: int|
            v.libs.len() <= k < absorbed(v, entries).libs.len() ==> #[trigger] absorbed(
                v,
                entries,
            ).libs[k] != v.name,
        (forall|i: int| 0 <= i < entries.len() ==> #[trigger] entries[i].name == v.name)
            ==> absorbed(v, entries) == v,
{
    broadcast use vstd::seq_lib::group_filter_ensures;

    let found = foreign_entries(entries, v.name);
    let pred = |e: EntryView| e.name != v.name;
    assert(found == entries.filter(pred));
    assert forall|k: int| v.libs.len() <= k < absorbed(v, entries).libs.len() implies #[trigger] absorbed(
        v,
        entries,
    ).libs[k] != v.name by {
        assert(pred(found[k - v.libs.len()]));
    }
    if forall|i: int| 0 <= i < entries.len() ==> #[trigger] entries[i].name == v.name {
        if found.len() > 0 {
            assert(pred(found[0]));
            assert(found.contains(found[0]));
            entries.lemma_filter_contains_rev(pred, found[0]);
            let i = choose|i: int| 0 <= i < entries.len() && entries[i] == found[0];
            assert(entries[i].name == v.name);
        }
        assert(found.len() == 0);
        assert(absorbed(v, entries).libs =~= v.libs);
        assert(absorbed(v, entries).link_paths =~= v.link_paths);
        assert(absorbed(v, entries).include_paths =~= v.include_paths);
    }
}

/// Link-kind gating: whatever the session goes through, it finishes with no
/// line for the enclosing build when it builds a program, and otherwise with
/// exactly the search path of its own `lib` directory and its own name as a
/// static library.
pub proof fn lemma_link_kind_gating(v: ConfigView, events: Seq<EventView>)
    ensures
        forall|k: int|
            0 <= k < events.len() ==> match #[trigger] session_actions(v, events)[k] {
                Some(ActionView::Finish(d)) => if v.kind == LinkType::Executables {
                    d.len() == 0
                } else {
                    d == seq![
                        LINK_SEARCH_DIRECTIVE@ + join(v.out_dir, LIB_DIR@),
                        LINK_LIB_DIRECTIVE@ + v.name,
                    ]
                },
                _ => true,
            },
    decreases events.len(),
{
    if events.len() > 0 {
        let w = next_config(v, events[0]);
        assert(w.kind == v.kind && w.name == v.name && w.out_dir == v.out_dir);
        lemma_link_kind_gating(w, events.drop_first());
        lemma_session_actions_unfold(v, events);
    }
}

} // verus!
