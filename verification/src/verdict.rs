//! The precedence policy that turns status entries into one verdict.

use vstd::prelude::*;
use crate::flags::StatusFlags;

verus! {

/// The single most urgent status of a repository.
#[derive(Clone, Copy, Debug, PartialEq, Eq, Structural)]
pub enum GitStatus {
    NoChanges,
    Modified,
    Staged,
    UnpushedCommits,
}

/// Where a scan over the status entries stands.
///
/// `Scanning` is the only state that reads further entries; the three
/// `..Found` states are final as soon as they are reached, and `Clean` is
/// reached only by finishing a scan that found nothing.
#[derive(Clone, Copy, Debug, PartialEq, Eq, Structural)]
pub enum ScanState {
    Scanning,
    StagedFound,
    ModifiedFound,
    UnpushedFound,
    Clean,
}

/// The state after reading one entry.
///
/// `diverged` is what the divergence check says; it is read only where
/// `consults_divergence` holds.
pub open spec fn step(state: ScanState, entry: StatusFlags, diverged: bool) -> ScanState {
    if state != ScanState::Scanning {
        state
    } else if entry.staged() {
        ScanState::StagedFound
    } else if entry.modified() {
        ScanState::ModifiedFound
    } else if diverged {
        ScanState::UnpushedFound
    } else {
        ScanState::Scanning
    }
}

/// Whether reading `entry` in `state` asks whether the branch has diverged.
pub open spec fn consults_divergence(state: ScanState, entry: StatusFlags) -> bool {
    state == ScanState::Scanning && entry.undecided()
}

/// The state after the last entry has been read.
pub open spec fn finish(state: ScanState) -> ScanState {
    if state == ScanState::Scanning {
        ScanState::Clean
    } else {
        state
    }
}

/// The verdict that a state stands for.
pub open spec fn verdict_of(state: ScanState) -> GitStatus {
    match state {
        ScanState::StagedFound => GitStatus::Staged,
        ScanState::ModifiedFound => GitStatus::Modified,
        ScanState::UnpushedFound => GitStatus::UnpushedCommits,
        ScanState::Scanning | ScanState::Clean => GitStatus::NoChanges,
    }
}

/// The state after reading the first `n` entries, starting from `Scanning`.
pub open spec fn scan_prefix(entries: Seq<StatusFlags>, diverged: bool, n: nat) -> ScanState
    decreases n,
{
    if n == 0 {
        ScanState::Scanning
    } else {
        step(scan_prefix(entries, diverged, (n - 1) as nat), entries[n - 1], diverged)
    }
}

/// The verdict of a repository with the given status entries, in the order
/// in which the status query lists them, whose branch has diverged from its
/// upstream or not.
///
/// The first entry decides: a staged one gives `Staged`, else a modified one
/// gives `Modified`, else divergence gives `UnpushedCommits`; only where none
/// of these holds does the next entry get its turn. Without entries the
/// verdict is `NoChanges`, whatever `diverged` says.
pub open spec fn verdict(entries: Seq<StatusFlags>, diverged: bool) -> GitStatus
    decreases entries.len(),
{
    if entries.len() == 0 {
        GitStatus::NoChanges
    } else if entries[0].staged() {
        GitStatus::Staged
    } else if entries[0].modified() {
        GitStatus::Modified
    } else if diverged {
        GitStatus::UnpushedCommits
    } else {
        verdict(entries.drop_first(), diverged)
    }
}

/// Every entry before position `n` is neither staged nor modified.
pub open spec fn undecided_before(entries: Seq<StatusFlags>, n: int) -> bool {
    forall|j: int| 0 <= j < n ==> (#[trigger] entries[j]).undecided()
}

impl ScanState {
    pub fn start() -> (state: ScanState)
        ensures
            state == ScanState::Scanning,
    {
        ScanState::Scanning
    }

    pub fn is_scanning(&self) -> (open: bool)
        ensures
            open == (*self == ScanState::Scanning),
    {
        match self {
            ScanState::Scanning => true,
            _ => false,
        }
    }

    /// Whether reading `entry` next needs the answer of the divergence check.
    pub fn needs_divergence(&self, entry: StatusFlags) -> (needed: bool)
        ensures
            needed == consults_divergence(*self, entry),
    {
        self.is_scanning() && !entry.is_staged() && !entry.is_modified()
    }

    /// Reads one entry.
    pub fn advance(self, entry: StatusFlags, diverged: bool) -> (next: ScanState)
        ensures
            next == step(self, entry, diverged),
    {
        if !self.is_scanning() {
            self
        } else if entry.is_staged() {
            ScanState::StagedFound
        } else if entry.is_modified() {
            ScanState::ModifiedFound
        } else if diverged {
            ScanState::UnpushedFound
        } else {
            ScanState::Scanning
        }
    }

    /// Ends the scan.
    pub fn close(self) -> (last: ScanState)
        ensures
            last == finish(self),
    {
        if self.is_scanning() {
            ScanState::Clean
        } else {
            self
        }
    }

    pub fn to_verdict(self) -> (v: GitStatus)
        ensures
            v == verdict_of(self),
    {
        match self {
            ScanState::StagedFound => GitStatus::Staged,
            ScanState::ModifiedFound => GitStatus::Modified,
            ScanState::UnpushedFound => GitStatus::UnpushedCommits,
            ScanState::Scanning | ScanState::Clean => GitStatus::NoChanges,
        }
    }
}

/// A scan that is still open after `n` entries has seen only entries that
/// decide nothing, and no divergence unless it has seen no entry at all.
pub proof fn lemma_scanning_prefix(entries: Seq<StatusFlags>, diverged: bool, n: nat)
    requires
        n <= entries.len(),
    ensures
        scan_prefix(entries, diverged, n) == ScanState::Scanning <==> undecided_before(
            entries,
            n as int,
        ) && (n > 0 ==> !diverged),
    decreases n,
{
    if n > 0 {
        lemma_scanning_prefix(entries, diverged, (n - 1) as nat);
    }
}

/// The verdict of a sequence whose first `n` entries left the scan open is
/// the verdict of what follows them.
pub proof fn lemma_verdict_skips_open_prefix(entries: Seq<StatusFlags>, diverged: bool, n: nat)
    requires
        n <= entries.len(),
        scan_prefix(entries, diverged, n) == ScanState::Scanning,
    ensures
        verdict(entries, diverged) == verdict(entries.skip(n as int), diverged),
    decreases n,
{
    if n == 0 {
        assert(entries.skip(0) =~= entries);
    } else {
        lemma_scanning_prefix(entries, diverged, n);
        lemma_scanning_prefix(entries, diverged, (n - 1) as nat);
        lemma_verdict_skips_open_prefix(entries, diverged, (n - 1) as nat);
        assert(entries.skip(n - 1).drop_first() =~= entries.skip(n as int));
    }
}

/// Running the state machine over all entries and closing it gives the verdict.
pub proof fn lemma_scan_gives_verdict(entries: Seq<StatusFlags>, diverged: bool)
    ensures
        verdict_of(finish(scan_prefix(entries, diverged, entries.len()))) == verdict(
            entries,
            diverged,
        ),
{
    lemma_decided_prefix(entries, diverged, entries.len());
    if scan_prefix(entries, diverged, entries.len()) == ScanState::Scanning {
        lemma_verdict_skips_open_prefix(entries, diverged, entries.len());
    }
}

/// A scan that has left `Scanning` after `n` entries already holds the verdict.
pub proof fn lemma_decided_prefix(entries: Seq<StatusFlags>, diverged: bool, n: nat)
    requires
        n <= entries.len(),
    ensures
        scan_prefix(entries, diverged, n) != ScanState::Scanning ==> {
            &&& scan_prefix(entries, diverged, n) != ScanState::Clean
            &&& verdict_of(scan_prefix(entries, diverged, n)) == verdict(entries, diverged)
        },
    decreases n,
{
    if n > 0 {
        let before = scan_prefix(entries, diverged, (n - 1) as nat);
        lemma_decided_prefix(entries, diverged, (n - 1) as nat);
        if before == ScanState::Scanning {
            lemma_verdict_skips_open_prefix(entries, diverged, (n - 1) as nat);
        }
    }
}

/// Without status entries and without divergence the verdict is `NoChanges`.
pub proof fn lemma_clean_without_entries(entries: Seq<StatusFlags>, diverged: bool)
    requires
        entries.len() == 0,
        !diverged,
    ensures
        verdict(entries, diverged) == GitStatus::NoChanges,
{
}

/// Without status entries the divergence check is never reached: the verdict
/// is `NoChanges` even where the branch has diverged from its upstream.
pub proof fn lemma_divergence_unseen_without_entries(entries: Seq<StatusFlags>, diverged: bool)
    requires
        entries.len() == 0,
        diverged,
    ensures
        verdict(entries, diverged) == GitStatus::NoChanges,
{
}

/// A staged entry gives `Staged`, whatever its working-tree flags and
/// whatever follows it, where it is the first entry that decides: no entry
/// before it is staged or modified, and the branch has not diverged unless
/// the staged entry is the very first one.
pub proof fn lemma_staged_precedence(entries: Seq<StatusFlags>, diverged: bool, i: int)
    requires
        0 <= i < entries.len(),
        entries[i].staged(),
        undecided_before(entries, i),
        diverged ==> i == 0,
    ensures
        verdict(entries, diverged) == GitStatus::Staged,
{
    lemma_verdict_characterised(entries, diverged);
}

/// A repository without staged entries and with a modified one gives
/// `Modified`, unless it has diverged and its first entry is not a modified
/// one (an untracked file, say): divergence is then seen first.
pub proof fn lemma_modified_without_staged(entries: Seq<StatusFlags>, diverged: bool)
    requires
        forall|j: int| 0 <= j < entries.len() ==> !(#[trigger] entries[j]).staged(),
        exists|i: int| 0 <= i < entries.len() && (#[trigger] entries[i]).modified(),
        diverged ==> entries[0].modified(),
    ensures
        verdict(entries, diverged) == GitStatus::Modified,
    decreases entries.len(),
{
    if !entries[0].modified() {
        let rest = entries.drop_first();
        let i = choose|i: int| 0 <= i < entries.len() && (#[trigger] entries[i]).modified();
        assert(rest[i - 1] == entries[i]);
        assert forall|j: int| 0 <= j < rest.len() implies !(#[trigger] rest[j]).staged() by {
            assert(rest[j] == entries[j + 1]);
        }
        lemma_modified_without_staged(rest, diverged);
    }
}

/// The verdict depends on nothing but the entries and the answer of the
/// divergence check: classifying an unchanged repository again gives the
/// same verdict.
pub proof fn lemma_classification_repeatable(
    entries: Seq<StatusFlags>,
    diverged: bool,
    first: GitStatus,
    second: GitStatus,
)
    requires
        first == verdict_of(finish(scan_prefix(entries, diverged, entries.len()))),
        second == verdict_of(finish(scan_prefix(entries, diverged, entries.len()))),
    ensures
        first == second,
        first == verdict(entries, diverged),
{
    lemma_scan_gives_verdict(entries, diverged);
}

/// The scan reaches entry `i`: nothing before it decides, and with
/// divergence only the first entry is ever reached.
pub open spec fn reached(entries: Seq<StatusFlags>, diverged: bool, i: int) -> bool {
    &&& 0 <= i < entries.len()
    &&& undecided_before(entries, i)
    &&& diverged ==> i == 0
}

/// Which entries give which verdict.
///
/// The first entry that is staged or modified decides, provided that the scan
/// reaches it: with divergence the scan stops at the first entry in any case.
pub proof fn lemma_verdict_characterised(entries: Seq<StatusFlags>, diverged: bool)
    ensures
        verdict(entries, diverged) == GitStatus::Staged <==> exists|i: int|
            #[trigger] reached(entries, diverged, i) && entries[i].staged(),
        verdict(entries, diverged) == GitStatus::Modified <==> exists|i: int|
            #[trigger] reached(entries, diverged, i) && !entries[i].staged()
                && entries[i].modified(),
        verdict(entries, diverged) == GitStatus::UnpushedCommits <==> diverged && entries.len()
            > 0 && entries[0].undecided(),
        verdict(entries, diverged) == GitStatus::NoChanges <==> entries.len() == 0 || (!diverged
            && undecided_before(entries, entries.len() as int)),
    decreases entries.len(),
{
    if entries.len() == 0 {
    } else if entries[0].staged() || entries[0].modified() {
        assert(reached(entries, diverged, 0));
        assert forall|i: int| #[trigger]
            reached(entries, diverged, i) && !entries[i].undecided() implies i == 0 by {}
    } else if diverged {
    } else {
        let rest = entries.drop_first();
        lemma_verdict_characterised(rest, diverged);
        lemma_undecided_after_first(entries);
        assert forall|i: int| #[trigger] reached(rest, diverged, i) implies reached(
            entries,
            diverged,
            i + 1,
        ) && entries[i + 1] == rest[i] by {}
        assert forall|i: int| #[trigger]
            reached(entries, diverged, i) && !entries[i].undecided() implies reached(
            rest,
            diverged,
            i - 1,
        ) && rest[i - 1] == entries[i] by {}
    }
}

/// Behind a first entry that decides nothing, a prefix of the rest decides
/// nothing exactly where the prefix that is one longer does.
proof fn lemma_undecided_after_first(entries: Seq<StatusFlags>)
    requires
        entries.len() > 0,
        entries[0].undecided(),
    ensures
        forall|n: int|
            0 <= n < entries.len() ==> (#[trigger] undecided_before(entries.drop_first(), n)
                <==> undecided_before(entries, n + 1)),
{
    let rest = entries.drop_first();
    assert forall|n: int| 0 <= n < entries.len() implies (#[trigger] undecided_before(rest, n)
        <==> undecided_before(entries, n + 1)) by {
        if undecided_before(rest, n) {
            assert forall|j: int| 0 <= j < n + 1 implies (#[trigger] entries[j]).undecided() by {
                if j > 0 {
                    assert(rest[j - 1] == entries[j]);
                }
            }
        }
        if undecided_before(entries, n + 1) {
            assert forall|j: int| 0 <= j < n implies (#[trigger] rest[j]).undecided() by {
                assert(rest[j] == entries[j + 1]);
            }
        }
    }
}

/// Classifies a repository from its status entries and the answer of the
/// divergence check.
pub fn classify_entries(entries: &Vec<StatusFlags>, diverged: bool) -> (v: GitStatus)
    ensures
        v == verdict(entries@, diverged),
{
    let mut state = ScanState::start();
    let mut i: usize = 0;
    while i < entries.len() && state.is_scanning()
        invariant
            i <= entries.len(),
            state == scan_prefix(entries@, diverged, i as nat),
        decreases entries.len() - i,
    {
        state = state.advance(entries[i], diverged);
        i = i + 1;
    }
    proof {
        lemma_decided_prefix(entries@, diverged, i as nat);
        if state == ScanState::Scanning {
            lemma_scan_gives_verdict(entries@, diverged);
        }
    }
    state.close().to_verdict()
}

} // verus!
