//! Which directories are being watched and by how many subscribers. A watch is
//! started for the first subscriber of a directory and stopped when the last one
//! leaves; the watchers themselves belong to the caller.
use vstd::prelude::*;
use crate::str_table::StrKeyTable;

verus! {

/// The bookkeeping for one watched directory.
#[derive(Clone, Copy, Debug, PartialEq, Eq, Structural)]
pub struct SubscriptionState {
    pub subscriber_count: usize,
}

/// The watched directories, by path.
pub struct SubscriptionTable {
    states: StrKeyTable<SubscriptionState>,
}

impl View for SubscriptionTable {
    type V = Map<Seq<char>, SubscriptionState>;

    closed spec fn view(&self) -> Map<Seq<char>, SubscriptionState> {
        self.states@
    }
}

/// What a subscription asked of the caller.
#[derive(Clone, Copy, Debug, PartialEq, Eq, Structural)]
pub enum SubscribeOutcome {
    /// The directory was already watched; the new subscriber shares that watch.
    Joined,
    /// The directory was not watched; the caller has to start watching it.
    Created,
}

/// A counter one higher, wrapping at the top of `usize` as an atomic add does.
pub open spec fn count_after_add(count: usize) -> usize {
    if count == usize::MAX {
        0
    } else {
        (count + 1) as usize
    }
}

/// A counter one lower, wrapping below zero as an atomic subtract does.
pub open spec fn count_after_sub(count: usize) -> usize {
    if count == 0 {
        usize::MAX
    } else {
        (count - 1) as usize
    }
}

/// The table after one more subscriber of `directory`.
pub open spec fn subscribed(
    table: Map<Seq<char>, SubscriptionState>,
    directory: Seq<char>,
) -> Map<Seq<char>, SubscriptionState> {
    if table.contains_key(directory) {
        table.insert(
            directory,
            SubscriptionState { subscriber_count: count_after_add(table[directory].subscriber_count) },
        )
    } else {
        table.insert(directory, SubscriptionState { subscriber_count: 1 })
    }
}

/// The table after one subscriber of `directory` left: the entry goes when its
/// count was one, and otherwise the count goes down.
pub open spec fn unsubscribed(
    table: Map<Seq<char>, SubscriptionState>,
    directory: Seq<char>,
) -> Map<Seq<char>, SubscriptionState> {
    if table.contains_key(directory) {
        if table[directory].subscriber_count == 1 {
            table.remove(directory)
        } else {
            table.insert(
                directory,
                SubscriptionState {
                    subscriber_count: count_after_sub(table[directory].subscriber_count),
                },
            )
        }
    } else {
        table
    }
}

impl SubscriptionTable {
    /// No directory watched.
    pub fn new() -> (res: Self)
        ensures
            res@ == Map::<Seq<char>, SubscriptionState>::empty(),
    {
        SubscriptionTable { states: StrKeyTable::new() }
    }

    /// The number of subscribers of `directory`, zero when it is not watched.
    pub fn subscriber_count(&self, directory: &str) -> (res: usize)
        ensures
            res == (if self@.contains_key(directory@) {
                self@[directory@].subscriber_count
            } else {
                0
            }),
    {
        match self.states.get(directory) {
            Some(state) => state.subscriber_count,
            None => 0,
        }
    }
}

/// Adds a subscriber to `directory`. A directory that is already watched gets
/// one more subscriber and keeps its watch; otherwise it is entered with one
/// subscriber and the caller is told to start a watch.
pub fn subscribe_fs(table: &mut SubscriptionTable, directory: &str) -> (res: SubscribeOutcome)
    ensures
        final(table)@ == subscribed(old(table)@, directory@),
        res == (if old(table)@.contains_key(directory@) {
            SubscribeOutcome::Joined
        } else {
            SubscribeOutcome::Created
        }),
{
    let current = match table.states.get(directory) {
        Some(state) => Some(*state),
        None => None,
    };
    match current {
        Some(state) => {
            let count = if state.subscriber_count == usize::MAX {
                0
            } else {
                state.subscriber_count + 1
            };
            table.states.insert(directory.to_owned(), SubscriptionState { subscriber_count: count });
            SubscribeOutcome::Joined
        },
        None => {
            table.states.insert(directory.to_owned(), SubscriptionState { subscriber_count: 1 });
            SubscribeOutcome::Created
        },
    }
}

/// Removes a subscriber of `directory`. Returns `true` when it was the last one:
/// the directory has then left the table and its watch has to be stopped.
pub fn unsubscribe_fs(table: &mut SubscriptionTable, directory: &str) -> (res: bool)
    ensures
        final(table)@ == unsubscribed(old(table)@, directory@),
        res == (old(table)@.contains_key(directory@) && old(table)@[directory@].subscriber_count
            == 1),
{
    let current = match table.states.get(directory) {
        Some(state) => Some(*state),
        None => None,
    };
    match current {
        Some(state) => {
            let prev = state.subscriber_count;
            if prev == 1 {
                table.states.remove(directory);
                true
            } else {
                let count = if prev == 0 {
                    usize::MAX
                } else {
                    prev - 1
                };
                table.states.insert(directory.to_owned(), SubscriptionState { subscriber_count: count });
                false
            }
        },
        None => false,
    }
}

/// A subscription followed by its unsubscription leaves the table as it was
/// (for a directory that, if watched, has a nonzero subscriber count).
pub proof fn lemma_unsubscribe_undoes_subscribe(
    table: Map<Seq<char>, SubscriptionState>,
    directory: Seq<char>,
)
    requires
        table.contains_key(directory) ==> table[directory].subscriber_count != 0,
    ensures
        unsubscribed(subscribed(table, directory), directory) == table,
{
    assert(unsubscribed(subscribed(table, directory), directory) =~= table);
}

/// The table after `k` subscriptions to `directory`.
pub open spec fn subscribed_times(
    table: Map<Seq<char>, SubscriptionState>,
    directory: Seq<char>,
    k: nat,
) -> Map<Seq<char>, SubscriptionState>
    decreases k,
{
    if k == 0 {
        table
    } else {
        subscribed(subscribed_times(table, directory, (k - 1) as nat), directory)
    }
}

/// The table after `k` unsubscriptions from `directory`.
pub open spec fn unsubscribed_times(
    table: Map<Seq<char>, SubscriptionState>,
    directory: Seq<char>,
    k: nat,
) -> Map<Seq<char>, SubscriptionState>
    decreases k,
{
    if k == 0 {
        table
    } else {
        unsubscribed(unsubscribed_times(table, directory, (k - 1) as nat), directory)
    }
}

/// `k` subscriptions to a directory that is not watched leave it watched by `k`
/// subscribers, as long as the count fits in `usize`.
pub proof fn lemma_subscribed_times(
    table: Map<Seq<char>, SubscriptionState>,
    directory: Seq<char>,
    k: nat,
)
    requires
        !table.contains_key(directory),
        1 <= k <= usize::MAX,
    ensures
        subscribed_times(table, directory, k) == table.insert(
            directory,
            SubscriptionState { subscriber_count: k as usize },
        ),
    decreases k,
{
    if k > 1 {
        lemma_subscribed_times(table, directory, (k - 1) as nat);
    } else {
        assert(subscribed_times(table, directory, 0) == table);
    }
    assert(subscribed_times(table, directory, k) =~= table.insert(
        directory,
        SubscriptionState { subscriber_count: k as usize },
    ));
}

/// From `k` subscribers, `j < k` unsubscriptions leave `k - j` of them.
pub proof fn lemma_unsubscribed_times(
    table: Map<Seq<char>, SubscriptionState>,
    directory: Seq<char>,
    k: nat,
    j: nat,
)
    requires
        1 <= k <= usize::MAX,
        j < k,
    ensures
        unsubscribed_times(
            table.insert(directory, SubscriptionState { subscriber_count: k as usize }),
            directory,
            j,
        ) == table.insert(directory, SubscriptionState { subscriber_count: (k - j) as usize }),
    decreases j,
{
    let start = table.insert(directory, SubscriptionState { subscriber_count: k as usize });
    if j > 0 {
        lemma_unsubscribed_times(table, directory, k, (j - 1) as nat);
        assert(unsubscribed_times(start, directory, j) =~= table.insert(
            directory,
            SubscriptionState { subscriber_count: (k - j) as usize },
        ));
    }
}

/// `k` subscriptions to a directory that was not watched, followed by `k`
/// unsubscriptions: the directory stays watched through the first `k - 1`
/// unsubscriptions, with one subscriber fewer each time, and only the last one
/// removes it (and tells the caller to stop the watch); the table is then as it
/// was, and no other directory was touched at any point.
pub proof fn lemma_k_unsubscriptions_undo_k_subscriptions(
    table: Map<Seq<char>, SubscriptionState>,
    directory: Seq<char>,
    k: nat,
)
    requires
        !table.contains_key(directory),
        1 <= k <= usize::MAX,
    ensures
        forall|j: nat|
            j < k ==> {
                let now = #[trigger] unsubscribed_times(subscribed_times(table, directory, k), directory, j);
                &&& now.contains_key(directory)
                &&& now[directory].subscriber_count == k - j
                &&& now.remove(directory) == table
            },
        unsubscribed_times(subscribed_times(table, directory, k), directory, k) == table,
{
    lemma_subscribed_times(table, directory, k);
    assert forall|j: nat| j < k implies {
        let now = #[trigger] unsubscribed_times(subscribed_times(table, directory, k), directory, j);
        &&& now.contains_key(directory)
        &&& now[directory].subscriber_count == k - j
        &&& now.remove(directory) == table
    } by {
        lemma_unsubscribed_times(table, directory, k, j);
        assert(table.insert(directory, SubscriptionState { subscriber_count: (k - j) as usize }).remove(
            directory,
        ) =~= table);
    }
    lemma_unsubscribed_times(table, directory, k, (k - 1) as nat);
    assert(table.insert(directory, SubscriptionState { subscriber_count: 1 }).remove(directory)
        =~= table);
}

/// Only the first subscriber of a directory starts a watch, and only the last
/// one to leave stops it: every other directory keeps its entry untouched.
pub proof fn lemma_other_directories_untouched(
    table: Map<Seq<char>, SubscriptionState>,
    directory: Seq<char>,
    other: Seq<char>,
)
    requires
        other != directory,
    ensures
        subscribed(table, directory).contains_key(other) == table.contains_key(other),
        unsubscribed(table, directory).contains_key(other) == table.contains_key(other),
        table.contains_key(other) ==> subscribed(table, directory)[other] == table[other],
        table.contains_key(other) ==> unsubscribed(table, directory)[other] == table[other],
{
}

} // verus!
