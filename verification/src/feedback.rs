//! The short list of recent verdicts, which fade and then drop out.

use vstd::prelude::*;
use vstd::string::*;
use crate::state::Quality;
use crate::text::{format_labelled, labelled_number};
use crate::timing::{elapsed, millis_half_even, spec_elapsed, spec_millis_half_even};

verus! {

/// How many entries the feed keeps.
pub const MAX_FEED_ENTRIES: usize = 5;

/// How long an entry is shown at full opacity: 3 s.
pub const VISIBLE_DURATION: u64 = 3_000_000_000;

/// How long an entry takes to fade out after that: 1 s.
pub const FADE_DURATION: u64 = 1_000_000_000;

/// The opacity of an entry that has not begun to fade. Opacity is counted in
/// billionths, so that each nanosecond of the fade is one step.
pub const FULL_OPACITY: u64 = 1_000_000_000;

/// One verdict in the feed.
#[derive(Debug)]
pub struct FeedEntry {
    pub message: String,
    /// The glyph of the grade.
    pub symbol: String,
    pub quality: Quality,
    /// When the entry was made.
    pub timestamp: u64,
}

/// A `FeedEntry` as a mathematical value.
pub struct EntryView {
    pub message: Seq<char>,
    pub symbol: Seq<char>,
    pub quality: Quality,
    pub timestamp: nat,
}

impl View for FeedEntry {
    type V = EntryView;

    open spec fn view(&self) -> EntryView {
        EntryView {
            message: self.message@,
            symbol: self.symbol@,
            quality: self.quality,
            timestamp: self.timestamp as nat,
        }
    }
}

impl Clone for FeedEntry {
    fn clone(&self) -> (copy: Self)
        ensures
            copy@ == self@,
    {
        FeedEntry {
            message: self.message.clone(),
            symbol: self.symbol.clone(),
            quality: self.quality,
            timestamp: self.timestamp,
        }
    }
}

/// The entry made at time `now` for a verdict.
pub open spec fn entry_at(message: Seq<char>, quality: Quality, now: nat) -> EntryView {
    EntryView { message, symbol: quality.spec_symbol(), quality, timestamp: now }
}

/// The opacity of an entry of age `age`: full while it is visible, then
/// falling in a straight line to zero over the fade.
pub open spec fn spec_opacity(age: nat) -> nat {
    if age < VISIBLE_DURATION {
        FULL_OPACITY as nat
    } else if age < VISIBLE_DURATION + FADE_DURATION {
        (FULL_OPACITY - (age - VISIBLE_DURATION) * FULL_OPACITY / (FADE_DURATION as int)) as nat
    } else {
        0
    }
}

/// Whether an entry of age `age` has faded out.
pub open spec fn spec_expired(age: nat) -> bool {
    age >= VISIBLE_DURATION + FADE_DURATION
}

impl EntryView {
    /// The age of the entry at time `now`.
    pub open spec fn age(self, now: nat) -> nat {
        spec_elapsed(now, self.timestamp)
    }

    /// The opacity of the entry at time `now`.
    pub open spec fn opacity(self, now: nat) -> nat {
        spec_opacity(self.age(now))
    }

    /// Whether the entry has faded out at time `now`.
    pub open spec fn expired(self, now: nat) -> bool {
        spec_expired(self.age(now))
    }
}

/// The test that keeps the entries that have not faded out at time `now`.
pub open spec fn live_at(now: nat) -> spec_fn(EntryView) -> bool {
    |entry: EntryView| !entry.expired(now)
}

impl FeedEntry {
    /// Makes the entry for a verdict at time `now`.
    pub fn new(message: String, quality: Quality, now: u64) -> (entry: Self)
        ensures
            entry@ == entry_at(message@, quality, now as nat),
    {
        FeedEntry { symbol: String::from_str(quality.symbol()), message, quality, timestamp: now }
    }

    /// The opacity of the entry at time `now`, in billionths.
    pub fn get_opacity(&self, now: u64) -> (opacity: u64)
        ensures
            opacity == self@.opacity(now as nat),
    {
        let age = elapsed(now, self.timestamp);
        if age < VISIBLE_DURATION {
            FULL_OPACITY
        } else if age < VISIBLE_DURATION + FADE_DURATION {
            let faded: u64 = (age - VISIBLE_DURATION) * FULL_OPACITY / FADE_DURATION;
            FULL_OPACITY - faded
        } else {
            0
        }
    }

    /// Whether the entry has faded out at time `now`.
    pub fn is_expired(&self, now: u64) -> (expired: bool)
        ensures
            expired == self@.expired(now as nat),
    {
        let age = elapsed(now, self.timestamp);
        age >= VISIBLE_DURATION + FADE_DURATION
    }
}

/// An entry is at full opacity when it is made and for the three seconds it
/// is visible, never above it, and at zero exactly when it has faded out,
/// which is from four seconds on.
pub proof fn lemma_opacity_range(age: nat)
    ensures
        spec_opacity(0) == FULL_OPACITY,
        age <= 3_000_000_000 ==> spec_opacity(age) == FULL_OPACITY,
        spec_opacity(age) <= FULL_OPACITY,
        spec_expired(age) <==> age >= 4_000_000_000,
        spec_expired(age) <==> spec_opacity(age) == 0,
{
}

/// Opacity never rises with age, and through the fade, from three to four
/// seconds, it falls strictly.
pub proof fn lemma_opacity_falls(earlier: nat, later: nat)
    requires
        earlier < later,
    ensures
        spec_opacity(earlier) >= spec_opacity(later),
        3_000_000_000 <= earlier && later <= 4_000_000_000 ==> spec_opacity(earlier)
            > spec_opacity(later),
{
}

/// The feed after `entry` is put in front of `feed`: at most
/// `MAX_FEED_ENTRIES` entries, the oldest dropped.
pub open spec fn with_newest(feed: Seq<EntryView>, entry: EntryView) -> Seq<EntryView> {
    let grown = seq![entry] + feed;
    if grown.len() > MAX_FEED_ENTRIES {
        grown.subrange(0, MAX_FEED_ENTRIES as int)
    } else {
        grown
    }
}

/// The entries of `feed` that have not faded out at time `now`, in order.
pub open spec fn live_entries(feed: Seq<EntryView>, now: nat) -> Seq<EntryView> {
    feed.filter(live_at(now))
}

/// The message of a perfect attempt: its hold time in rounded milliseconds.
pub open spec fn perfect_message(hold_time: nat) -> Seq<char> {
    labelled_number("PERFECT "@, spec_millis_half_even(hold_time), "ms"@)
}

/// The message of a good attempt: its hold time in rounded milliseconds.
pub open spec fn good_message(hold_time: nat) -> Seq<char> {
    labelled_number("Good "@, spec_millis_half_even(hold_time), "ms"@)
}

/// Borrowed entries as mathematical values.
pub open spec fn entry_views(entries: Seq<&FeedEntry>) -> Seq<EntryView> {
    entries.map_values(|entry: &FeedEntry| entry@)
}

/// Borrowed entries, each with an opacity, as mathematical values.
pub open spec fn faded_views(entries: Seq<(&FeedEntry, u64)>) -> Seq<(EntryView, nat)> {
    entries.map_values(|pair: (&FeedEntry, u64)| (pair.0@, pair.1 as nat))
}

/// Each entry of `feed` with its opacity at time `now`.
pub open spec fn with_opacity(feed: Seq<EntryView>, now: nat) -> Seq<(EntryView, nat)> {
    feed.map_values(|entry: EntryView| (entry, entry.opacity(now)))
}

/// Owned entries as mathematical values.
spec fn owned_views(entries: Seq<FeedEntry>) -> Seq<EntryView> {
    entries.map_values(|entry: FeedEntry| entry@)
}

/// Filtering a sequence with one more entry at its end keeps or drops that
/// entry and leaves the rest as it was.
proof fn lemma_live_push(feed: Seq<EntryView>, entry: EntryView, now: nat)
    ensures
        live_entries(feed.push(entry), now) == if entry.expired(now) {
            live_entries(feed, now)
        } else {
            live_entries(feed, now).push(entry)
        },
{
    reveal(Seq::filter);
    assert(feed.push(entry).drop_last() =~= feed);
}

/// The feed after the entries `entries` are put in front one after the
/// other.
pub open spec fn with_all(feed: Seq<EntryView>, entries: Seq<EntryView>) -> Seq<EntryView>
    decreases entries.len(),
{
    if entries.len() == 0 {
        feed
    } else {
        with_newest(with_all(feed, entries.drop_last()), entries.last())
    }
}

/// A new entry stands first, the entries that were there follow in their
/// order, and the feed never holds more than its capacity.
pub proof fn lemma_with_newest(feed: Seq<EntryView>, entry: EntryView)
    ensures
        with_newest(feed, entry).len() <= MAX_FEED_ENTRIES,
        with_newest(feed, entry).len() == if feed.len() < MAX_FEED_ENTRIES {
            feed.len() + 1
        } else {
            MAX_FEED_ENTRIES as nat
        },
        with_newest(feed, entry)[0] == entry,
        forall|i: int|
            1 <= i < with_newest(feed, entry).len() ==> with_newest(feed, entry)[i] == feed[i - 1],
{
}

/// After as many entries as the feed can hold, or more, the feed holds the
/// last of them and nothing else, the newest first.
pub proof fn lemma_feed_keeps_newest(feed: Seq<EntryView>, entries: Seq<EntryView>)
    requires
        entries.len() >= MAX_FEED_ENTRIES,
    ensures
        with_all(feed, entries).len() == MAX_FEED_ENTRIES,
        forall|i: int|
            0 <= i < MAX_FEED_ENTRIES ==> with_all(feed, entries)[i] == entries[entries.len() - 1
                - i],
{
    lemma_with_all(feed, entries);
}

/// After any entries the feed holds them newest first, followed by what was
/// there before, cut at the capacity.
proof fn lemma_with_all(feed: Seq<EntryView>, entries: Seq<EntryView>)
    ensures
        with_all(feed, entries).len() <= feed.len() + entries.len(),
        entries.len() > 0 ==> with_all(feed, entries).len() <= MAX_FEED_ENTRIES,
        feed.len() + entries.len() >= MAX_FEED_ENTRIES && entries.len() > 0 ==> with_all(
            feed,
            entries,
        ).len() == MAX_FEED_ENTRIES,
        feed.len() + entries.len() <= MAX_FEED_ENTRIES ==> with_all(feed, entries).len()
            == feed.len() + entries.len(),
        forall|i: int|
            0 <= i < with_all(feed, entries).len() && i < entries.len() ==> with_all(
                feed,
                entries,
            )[i] == entries[entries.len() - 1 - i],
    decreases entries.len(),
{
    if entries.len() > 0 {
        let earlier = entries.drop_last();
        lemma_with_all(feed, earlier);
        lemma_with_newest(with_all(feed, earlier), entries.last());
    }
}

/// Whether no entry of `feed` is older than one that stands behind it.
pub open spec fn newest_first(feed: Seq<EntryView>) -> bool {
    forall|i: int, j: int| 0 <= i <= j < feed.len() ==> feed[i].timestamp >= feed[j].timestamp
}

/// While the clock does not run backwards, the feed stays ordered newest
/// first: an entry no older than those on the feed keeps the order.
pub proof fn lemma_add_keeps_newest_first(feed: Seq<EntryView>, entry: EntryView)
    requires
        newest_first(feed),
        forall|i: int| 0 <= i < feed.len() ==> feed[i].timestamp <= entry.timestamp,
    ensures
        newest_first(with_newest(feed, entry)),
{
    lemma_with_newest(feed, entry);
}

/// Where every entry is live, dropping the faded ones changes nothing.
proof fn lemma_all_live(feed: Seq<EntryView>, now: nat)
    requires
        forall|i: int| 0 <= i < feed.len() ==> !feed[i].expired(now),
    ensures
        live_entries(feed, now) == feed,
    decreases feed.len(),
{
    if feed.len() == 0 {
        reveal(Seq::filter);
    } else {
        lemma_all_live(feed.drop_last(), now);
        lemma_live_push(feed.drop_last(), feed.last(), now);
        assert(feed.drop_last().push(feed.last()) =~= feed);
    }
}

/// On a feed that is ordered newest first, dropping the faded entries cuts
/// off its older end and keeps the order.
pub proof fn lemma_cleanup_cuts_the_tail(feed: Seq<EntryView>, now: nat)
    requires
        newest_first(feed),
    ensures
        live_entries(feed, now).len() <= feed.len(),
        live_entries(feed, now) == feed.subrange(0, live_entries(feed, now).len() as int),
        newest_first(live_entries(feed, now)),
    decreases feed.len(),
{
    if feed.len() == 0 {
        reveal(Seq::filter);
        assert(live_entries(feed, now) =~= feed.subrange(0, 0));
    } else {
        let earlier = feed.drop_last();
        lemma_live_push(earlier, feed.last(), now);
        assert(earlier.push(feed.last()) =~= feed);
        if feed.last().expired(now) {
            lemma_cleanup_cuts_the_tail(earlier, now);
            let kept = live_entries(earlier, now).len() as int;
            assert(earlier.subrange(0, kept) =~= feed.subrange(0, kept));
        } else {
            assert forall|i: int| 0 <= i < feed.len() implies !feed[i].expired(now) by {
                assert(feed[i].timestamp >= feed[feed.len() - 1].timestamp);
            }
            lemma_all_live(feed, now);
            assert(feed =~= feed.subrange(0, feed.len() as int));
        }
    }
}

/// The recent verdicts, newest first.
#[derive(Debug)]
pub struct FeedSystem {
    entries: Vec<FeedEntry>,
}

impl View for FeedSystem {
    type V = Seq<EntryView>;

    closed spec fn view(&self) -> Seq<EntryView> {
        owned_views(self.entries@)
    }
}

impl FeedSystem {
    #[verifier::type_invariant]
    spec fn within_capacity(self) -> bool {
        self.entries@.len() <= MAX_FEED_ENTRIES
    }

    /// An empty feed.
    pub fn new() -> (feed: Self)
        ensures
            feed@ == Seq::<EntryView>::empty(),
    {
        let feed = FeedSystem { entries: Vec::with_capacity(MAX_FEED_ENTRIES) };
        assert(feed@ =~= Seq::<EntryView>::empty());
        feed
    }

    /// How many entries the feed holds.
    pub fn len(&self) -> (count: usize)
        ensures
            count == self@.len(),
            count <= MAX_FEED_ENTRIES,
    {
        proof {
            use_type_invariant(self);
        }
        self.entries.len()
    }

    /// Moves the entries out and leaves the feed empty.
    fn take_entries(&mut self) -> (entries: Vec<FeedEntry>)
        ensures
            entries@ == old(self).entries@,
            entries@.len() <= MAX_FEED_ENTRIES,
            final(self).entries@ == Seq::<FeedEntry>::empty(),
    {
        proof {
            use_type_invariant(&*self);
        }
        let mut entries: Vec<FeedEntry> = Vec::new();
        core::mem::swap(&mut self.entries, &mut entries);
        entries
    }

    /// Puts a verdict made at time `now` in front, and drops the oldest entry
    /// beyond the capacity.
    pub fn add(&mut self, message: String, quality: Quality, now: u64)
        ensures
            final(self)@ == with_newest(old(self)@, entry_at(message@, quality, now as nat)),
    {
        let entry = FeedEntry::new(message, quality, now);
        let mut entries = self.take_entries();
        entries.insert(0, entry);
        if entries.len() > MAX_FEED_ENTRIES {
            entries.truncate(MAX_FEED_ENTRIES);
        }
        self.entries = entries;
        assert(self@ =~= with_newest(old(self)@, entry_at(message@, quality, now as nat)));
    }

    /// Puts a perfect attempt in front, with its hold time as the message.
    pub fn add_perfect(&mut self, hold_time: u64, now: u64)
        ensures
            final(self)@ == with_newest(
                old(self)@,
                entry_at(perfect_message(hold_time as nat), Quality::Perfect, now as nat),
            ),
    {
        let message = format_labelled("PERFECT ", millis_half_even(hold_time), "ms");
        self.add(message, Quality::Perfect, now);
    }

    /// Puts a good attempt in front, with its hold time as the message.
    pub fn add_good(&mut self, hold_time: u64, now: u64)
        ensures
            final(self)@ == with_newest(
                old(self)@,
                entry_at(good_message(hold_time as nat), Quality::Good, now as nat),
            ),
    {
        let message = format_labelled("Good ", millis_half_even(hold_time), "ms");
        self.add(message, Quality::Good, now);
    }

    /// Puts a failed attempt in front, with `error_message` as the message.
    pub fn add_failed(&mut self, error_message: &str, now: u64)
        ensures
            final(self)@ == with_newest(
                old(self)@,
                entry_at(error_message@, Quality::Failed, now as nat),
            ),
    {
        self.add(String::from_str(error_message), Quality::Failed, now);
    }

    /// Drops the entries that have faded out at time `now`.
    pub fn cleanup(&mut self, now: u64)
        ensures
            final(self)@ == live_entries(old(self)@, now as nat),
    {
        let entries = self.take_entries();
        let mut kept: Vec<FeedEntry> = Vec::with_capacity(MAX_FEED_ENTRIES);
        let mut pending = entries;
        let ghost seen: Seq<EntryView> = Seq::empty();
        proof {
            reveal(Seq::filter);
            assert(owned_views(pending@) =~= old(self)@);
            assert(seen + owned_views(pending@) =~= old(self)@);
            assert(owned_views(kept@) =~= live_entries(seen, now as nat));
        }
        while pending.len() > 0
            invariant
                seen + owned_views(pending@) == old(self)@,
                owned_views(kept@) == live_entries(seen, now as nat),
                kept@.len() + pending@.len() <= MAX_FEED_ENTRIES,
            decreases pending@.len(),
        {
            let ghost before = owned_views(pending@);
            let ghost held = owned_views(kept@);
            let entry = pending.remove(0);
            proof {
                lemma_live_push(seen, entry@, now as nat);
                Seq::<EntryView>::lemma_filter_len(seen, live_at(now as nat));
                assert(seq![entry@] + owned_views(pending@) =~= before);
                assert(seen.push(entry@) + owned_views(pending@) =~= seen + before);
                seen = seen.push(entry@);
            }
            if !entry.is_expired(now) {
                kept.push(entry);
                assert(owned_views(kept@) =~= held.push(entry@));
            }
        }
        proof {
            assert(seen =~= seen + owned_views(pending@));
        }
        self.entries = kept;
    }

    /// The entries that have not faded out at time `now`, newest first.
    pub fn get_visible_entries(&self, now: u64) -> (visible: Vec<&FeedEntry>)
        ensures
            entry_views(visible@) == live_entries(self@, now as nat),
    {
        let mut visible: Vec<&FeedEntry> = Vec::new();
        let mut index: usize = 0;
        proof {
            reveal(Seq::filter);
            assert(entry_views(visible@) =~= live_entries(self@.subrange(0, 0), now as nat));
        }
        while index < self.entries.len()
            invariant
                index <= self.entries@.len(),
                entry_views(visible@) == live_entries(
                    self@.subrange(0, index as int),
                    now as nat,
                ),
            decreases self.entries@.len() - index,
        {
            let entry = &self.entries[index];
            let ghost held = entry_views(visible@);
            proof {
                lemma_live_push(self@.subrange(0, index as int), entry@, now as nat);
                assert(self@.subrange(0, index as int).push(entry@) =~= self@.subrange(
                    0,
                    index + 1,
                ));
            }
            if !entry.is_expired(now) {
                visible.push(entry);
                assert(entry_views(visible@) =~= held.push(entry@));
            }
            index += 1;
        }
        proof {
            assert(self@.subrange(0, index as int) =~= self@);
        }
        visible
    }

    /// The entries that have not faded out at time `now`, newest first, each
    /// with its opacity at that time.
    pub fn get_entries_with_opacity(&self, now: u64) -> (faded: Vec<(&FeedEntry, u64)>)
        ensures
            faded_views(faded@) == with_opacity(live_entries(self@, now as nat), now as nat),
    {
        let visible = self.get_visible_entries(now);
        let mut faded: Vec<(&FeedEntry, u64)> = Vec::new();
        let mut index: usize = 0;
        while index < visible.len()
            invariant
                index <= visible@.len(),
                faded@.len() == index,
                forall|i: int|
                    0 <= i < index ==> (#[trigger] faded@[i]).0 == visible@[i] && faded@[i].1
                        == visible@[i]@.opacity(now as nat),
            decreases visible@.len() - index,
        {
            let entry = visible[index];
            faded.push((entry, entry.get_opacity(now)));
            index += 1;
        }
        proof {
            assert(faded_views(faded@) =~= with_opacity(entry_views(visible@), now as nat));
        }
        faded
    }

    /// Empties the feed.
    pub fn clear(&mut self)
        ensures
            final(self)@ == Seq::<EntryView>::empty(),
    {
        self.entries = Vec::new();
        assert(self@ =~= Seq::<EntryView>::empty());
    }
}

impl Clone for FeedSystem {
    fn clone(&self) -> (copy: Self)
        ensures
            copy@ == self@,
    {
        proof {
            use_type_invariant(self);
        }
        let mut entries: Vec<FeedEntry> = Vec::with_capacity(MAX_FEED_ENTRIES);
        let mut index: usize = 0;
        while index < self.entries.len()
            invariant
                index <= self.entries@.len() <= MAX_FEED_ENTRIES,
                entries@.len() == index,
                forall|i: int| 0 <= i < index ==> entries@[i]@ == self.entries@[i]@,
            decreases self.entries@.len() - index,
        {
            entries.push(self.entries[index].clone());
            index += 1;
        }
        let copy = FeedSystem { entries };
        assert(copy@ =~= self@);
        copy
    }
}

impl Default for FeedSystem {
    fn default() -> (feed: Self)
        ensures
            feed@ == Seq::<EntryView>::empty(),
    {
        FeedSystem::new()
    }
}

} // verus!
