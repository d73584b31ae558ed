//! What holds of every run of the registries and of every broadcast.
//!
//! The commands that start and stop sessions change a registry's ids as
//! `registered` and `unregistered` say; a broadcast reports `accepted` of
//! the answers of the peers' queues. The laws here are stated over those
//! functions.

use crate::pump::{accepted, lemma_all_accepted};
use crate::registry::{lemma_push_distinct, lemma_remove_distinct, registered, unregistered};
use vstd::prelude::*;

verus! {

/// A command on a registry, by the id it names: a create that is carried
/// out or refused as a duplicate, or a stop.
pub enum Command {
    Create(Seq<char>),
    Stop(Seq<char>),
}

/// The ids of a registry after one command.
pub open spec fn after_command(ids: Seq<Seq<char>>, command: Command) -> Seq<Seq<char>> {
    match command {
        Command::Create(id) => registered(ids, id),
        Command::Stop(id) => unregistered(ids, id),
    }
}

/// The ids of a registry after a run of commands.
pub open spec fn after_commands(ids: Seq<Seq<char>>, commands: Seq<Command>) -> Seq<Seq<char>>
    decreases commands.len(),
{
    if commands.len() == 0 {
        ids
    } else {
        after_command(after_commands(ids, commands.drop_last()), commands.last())
    }
}

/// Whether no id is created after it was stopped.
pub open spec fn no_create_after_stop(commands: Seq<Command>) -> bool {
    forall|i: int, j: int|
        0 <= i < j < commands.len() && commands[i] is Stop && commands[j] is Create
            ==> commands[i]->Stop_0 != commands[j]->Create_0
}

/// One command keeps a registry free of repeated ids.
pub proof fn lemma_command_keeps_ids_distinct(ids: Seq<Seq<char>>, command: Command)
    requires
        ids.no_duplicates(),
    ensures
        after_command(ids, command).no_duplicates(),
{
    match command {
        Command::Create(id) => {
            if !ids.contains(id) {
                lemma_push_distinct(ids, id);
            }
        },
        Command::Stop(id) => {
            if ids.contains(id) {
                lemma_remove_distinct(ids, ids.index_of(id));
            }
        },
    }
}

/// Which ids are registered after one command: after a create, the ones
/// before and the created one; after a stop, the ones before but for the
/// stopped one.
pub proof fn lemma_membership_after_command(ids: Seq<Seq<char>>, command: Command, id: Seq<char>)
    requires
        ids.no_duplicates(),
    ensures
        after_command(ids, command).contains(id) <==> match command {
            Command::Create(made) => ids.contains(id) || id == made,
            Command::Stop(gone) => ids.contains(id) && id != gone,
        },
{
    match command {
        Command::Create(made) => {
            if !ids.contains(made) {
                let more = ids.push(made);
                assert(more[ids.len() as int] == made);
                if ids.contains(id) {
                    let k = choose|k: int| 0 <= k < ids.len() && ids[k] == id;
                    assert(more[k] == id);
                }
                if more.contains(id) {
                    let k = choose|k: int| 0 <= k < more.len() && more[k] == id;
                    if k < ids.len() {
                        assert(ids[k] == id);
                    }
                }
            }
        },
        Command::Stop(gone) => {
            if ids.contains(gone) {
                let at = ids.index_of(gone);
                assert(ids[at] == gone);
                lemma_remove_distinct(ids, at);
            }
        },
    }
}

/// An element is in a sequence exactly when it is the last one or among the
/// ones before.
pub proof fn lemma_contains_last(commands: Seq<Command>, command: Command)
    requires
        commands.len() > 0,
    ensures
        commands.contains(command) <==> (commands.drop_last().contains(command) || commands.last()
            == command),
{
    let earlier = commands.drop_last();
    if commands.contains(command) {
        let k = choose|k: int| 0 <= k < commands.len() && commands[k] == command;
        if k < earlier.len() {
            assert(earlier[k] == command);
        }
    }
    if earlier.contains(command) {
        let k = choose|k: int| 0 <= k < earlier.len() && earlier[k] == command;
        assert(commands[k] == command);
    }
    if commands.last() == command {
        assert(commands[commands.len() - 1] == command);
    }
}

/// After any run of creates and stops on an empty registry in which no id
/// is created again once it was stopped, the registered ids are exactly the
/// ids that were created and never stopped, each of them once.
pub proof fn lemma_ids_are_those_never_stopped(commands: Seq<Command>)
    requires
        no_create_after_stop(commands),
    ensures
        after_commands(Seq::empty(), commands).no_duplicates(),
        forall|id: Seq<char>|
            after_commands(Seq::empty(), commands).contains(id) <==> (commands.contains(
                Command::Create(id),
            ) && !commands.contains(Command::Stop(id))),
    decreases commands.len(),
{
    let ids = after_commands(Seq::empty(), commands);
    if commands.len() == 0 {
        assert(ids =~= Seq::<Seq<char>>::empty());
    } else {
        let earlier = commands.drop_last();
        let last = commands.last();
        let before = after_commands(Seq::empty(), earlier);
        assert(no_create_after_stop(earlier)) by {
            assert forall|i: int, j: int|
                0 <= i < j < earlier.len() && earlier[i] is Stop && earlier[j] is Create implies earlier[i]->Stop_0
                != earlier[j]->Create_0 by {
                assert(earlier[i] == commands[i] && earlier[j] == commands[j]);
            }
        }
        lemma_ids_are_those_never_stopped(earlier);
        lemma_command_keeps_ids_distinct(before, last);
        assert forall|id: Seq<char>|
            ids.contains(id) <==> (commands.contains(Command::Create(id)) && !commands.contains(
                Command::Stop(id),
            )) by {
            let create = Command::Create(id);
            let stop = Command::Stop(id);
            lemma_contains_last(commands, create);
            lemma_contains_last(commands, stop);
            lemma_membership_after_command(before, last, id);
            assert(before.contains(id) <==> (earlier.contains(create) && !earlier.contains(stop)));
            if last == create && earlier.contains(stop) {
                let k = choose|k: int| 0 <= k < earlier.len() && earlier[k] == stop;
                assert(commands[k] is Stop && commands[commands.len() - 1] is Create);
            }
        }
    }
}

/// Creating an id twice in a row registers it once: after the first create
/// the id is registered, so the second is refused as a duplicate, and it
/// leaves the registry as the first left it, with the id in it exactly once.
pub proof fn lemma_second_create_is_refused(ids: Seq<Seq<char>>, id: Seq<char>)
    requires
        ids.no_duplicates(),
    ensures
        registered(ids, id).contains(id),
        registered(registered(ids, id), id) == registered(ids, id),
        registered(ids, id).no_duplicates(),
        registered(ids, id).to_multiset().count(id) == 1,
{
    let once = registered(ids, id);
    if !ids.contains(id) {
        lemma_push_distinct(ids, id);
        assert(once[ids.len() as int] == id);
    }
    once.lemma_multiset_has_no_duplicates();
    once.to_multiset_ensures();
}

/// A stop frees the id: once an id is stopped it is not registered, so that
/// the next create of the same id is not refused as a duplicate.
pub proof fn lemma_stopped_id_is_free(ids: Seq<Seq<char>>, id: Seq<char>)
    requires
        ids.no_duplicates(),
    ensures
        !unregistered(ids, id).contains(id),
        registered(unregistered(ids, id), id) == unregistered(ids, id).push(id),
{
    if ids.contains(id) {
        lemma_remove_distinct(ids, ids.index_of(id));
    }
}

/// A broadcast to N peers whose queues all take the message reports N. Once
/// one of the peers is dropped it is no longer registered, and the next
/// broadcast, again taken by every queue, reports N - 1.
pub proof fn lemma_broadcast_counts_peers(
    peers: Seq<Seq<char>>,
    gone: Seq<char>,
    first: Seq<bool>,
    second: Seq<bool>,
)
    requires
        peers.no_duplicates(),
        peers.contains(gone),
        first.len() == peers.len(),
        forall|i: int| 0 <= i < first.len() ==> first[i],
        second.len() == unregistered(peers, gone).len(),
        forall|i: int| 0 <= i < second.len() ==> second[i],
    ensures
        accepted(first) == peers.len(),
        !unregistered(peers, gone).contains(gone),
        accepted(second) == peers.len() - 1,
{
    lemma_all_accepted(first);
    lemma_all_accepted(second);
    lemma_remove_distinct(peers, peers.index_of(gone));
}

/// A queue that refuses is left out of the count and takes nothing from the
/// others: the count is that of the other queues' outcomes.
pub proof fn lemma_refusal_is_local(outcomes: Seq<bool>, i: int)
    requires
        0 <= i < outcomes.len(),
        !outcomes[i],
    ensures
        accepted(outcomes) == accepted(outcomes.remove(i)),
    decreases outcomes.len(),
{
    if i == outcomes.len() - 1 {
        assert(outcomes.remove(i) =~= outcomes.drop_last());
    } else {
        lemma_refusal_is_local(outcomes.drop_last(), i);
        assert(outcomes.remove(i).drop_last() =~= outcomes.drop_last().remove(i));
        assert(outcomes.remove(i).last() == outcomes.last());
    }
}

} // verus!
