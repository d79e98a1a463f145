//! Typed, thread-bound adaptive evidence derived from native tool completion
//! items, and the per-thread registry that resolves evidence references.
use vstd::prelude::*;

use crate::text::str_eq;
use crate::thread_text::{parse_thread_id, spec_parse_thread_id};

verus! {

/// Identity of a conversation thread.
#[derive(Clone, Copy, Debug, PartialEq, Eq, Hash, Structural)]
pub struct ThreadId {
    pub raw: u128,
}

/// Native failures within one turn that arm a synthetic capability signal.
pub const ADAPTIVE_FAILURE_PRESSURE_THRESHOLD: usize = 2;

/// Diagnostic note of the synthetic capability signal armed by native failure
/// pressure. It alone never justifies a model-family jump.
pub const AUTO_FAILURE_PRESSURE_DIAGNOSTIC: &'static str = "automatic native failure pressure";

pub open spec fn auto_diagnostic() -> Seq<char> {
    AUTO_FAILURE_PRESSURE_DIAGNOSTIC@
}

#[derive(Clone, Copy, Debug, PartialEq, Eq, Structural)]
pub enum AdaptiveEvidenceOutcome {
    Success,
    Failure,
    Cancelled,
    Incomplete,
}

#[derive(Clone, Copy, Debug, PartialEq, Eq, Structural)]
pub enum AdaptiveEvidenceKind {
    CommandExecution,
    McpToolCall,
    DynamicToolCall,
}

#[derive(Clone, Debug, PartialEq, Eq)]
pub struct AdaptiveEvidenceRecord {
    pub evidence_id: String,
    pub thread_id: ThreadId,
    pub source_turn_id: String,
    pub outcome: AdaptiveEvidenceOutcome,
    pub kind: AdaptiveEvidenceKind,
}

pub struct EvidenceRecordView {
    pub evidence_id: Seq<char>,
    pub thread_id: ThreadId,
    pub source_turn_id: Seq<char>,
    pub outcome: AdaptiveEvidenceOutcome,
    pub kind: AdaptiveEvidenceKind,
}

impl View for AdaptiveEvidenceRecord {
    type V = EvidenceRecordView;

    open spec fn view(&self) -> EvidenceRecordView {
        EvidenceRecordView {
            evidence_id: self.evidence_id@,
            thread_id: self.thread_id,
            source_turn_id: self.source_turn_id@,
            outcome: self.outcome,
            kind: self.kind,
        }
    }
}

impl AdaptiveEvidenceRecord {
    pub fn duplicate(&self) -> (r: Self)
        ensures
            r == *self,
    {
        AdaptiveEvidenceRecord {
            evidence_id: self.evidence_id.clone(),
            thread_id: self.thread_id,
            source_turn_id: self.source_turn_id.clone(),
            outcome: self.outcome,
            kind: self.kind,
        }
    }

    pub fn same_as(&self, other: &Self) -> (r: bool)
        ensures
            r == (self@ == other@),
    {
        self.evidence_id == other.evidence_id && self.thread_id == other.thread_id
            && self.source_turn_id == other.source_turn_id && self.outcome == other.outcome
            && self.kind == other.kind
    }
}

#[derive(Clone, Debug, PartialEq, Eq)]
pub enum AdaptiveEvidenceEntry {
    Valid(AdaptiveEvidenceRecord),
    Conflicted,
}

pub enum EvidenceEntryView {
    Valid(EvidenceRecordView),
    Conflicted,
}

impl View for AdaptiveEvidenceEntry {
    type V = EvidenceEntryView;

    open spec fn view(&self) -> EvidenceEntryView {
        match self {
            AdaptiveEvidenceEntry::Valid(r) => EvidenceEntryView::Valid(r@),
            AdaptiveEvidenceEntry::Conflicted => EvidenceEntryView::Conflicted,
        }
    }
}

#[derive(Clone, Copy, Debug, PartialEq, Eq, Structural)]
pub enum AdaptiveEvidenceRegistration {
    Registered,
    Duplicate,
    Conflicted,
}

#[derive(Clone, Copy, Debug, PartialEq, Eq, Structural)]
pub enum AdaptiveEvidenceResolveError {
    NotFound,
    Conflicted,
    CrossThread,
    SourceTurnMismatch,
    OutcomeMismatch,
}

/// Registered evidence, one entry per evidence id in order of first
/// registration. An id once registered with two different records stays
/// conflicted forever.
#[derive(Debug, PartialEq, Eq)]
pub struct AdaptiveEvidenceRegistry {
    entries: Vec<(String, AdaptiveEvidenceEntry)>,
}

/// Index of the entry for `key`, if any.
pub open spec fn position_of(entries: Seq<(Seq<char>, EvidenceEntryView)>, key: Seq<char>) -> Option<int>
    decreases entries.len(),
{
    if entries.len() == 0 {
        None
    } else if entries.last().0 == key {
        Some(entries.len() - 1)
    } else {
        position_of(entries.drop_last(), key)
    }
}

/// The entry for `key`, if any.
pub open spec fn lookup(entries: Seq<(Seq<char>, EvidenceEntryView)>, key: Seq<char>) -> Option<
    EvidenceEntryView,
> {
    match position_of(entries, key) {
        Some(i) => Some(entries[i].1),
        None => None,
    }
}

/// Entries whose ids are distinct and whose valid records carry their own id.
pub open spec fn well_keyed(entries: Seq<(Seq<char>, EvidenceEntryView)>) -> bool {
    &&& forall|i: int, j: int|
        0 <= i < j < entries.len() ==> #[trigger] entries[i].0 != #[trigger] entries[j].0
    &&& forall|i: int|
        0 <= i < entries.len() ==> (#[trigger] entries[i].1 matches EvidenceEntryView::Valid(r)
            ==> r.evidence_id == entries[i].0)
}

/// The entries after registering `record`: a new id is appended; the same
/// record again changes nothing; a different record under a valid id turns it
/// conflicted; a conflicted id stays as it is.
pub open spec fn spec_register(
    entries: Seq<(Seq<char>, EvidenceEntryView)>,
    record: EvidenceRecordView,
) -> (Seq<(Seq<char>, EvidenceEntryView)>, AdaptiveEvidenceRegistration) {
    let key = record.evidence_id;
    match position_of(entries, key) {
        None => (
            entries.push((key, EvidenceEntryView::Valid(record))),
            AdaptiveEvidenceRegistration::Registered,
        ),
        Some(i) => match entries[i].1 {
            EvidenceEntryView::Valid(existing) => if existing == record {
                (entries, AdaptiveEvidenceRegistration::Duplicate)
            } else {
                (
                    entries.update(i, (key, EvidenceEntryView::Conflicted)),
                    AdaptiveEvidenceRegistration::Conflicted,
                )
            },
            EvidenceEntryView::Conflicted => (entries, AdaptiveEvidenceRegistration::Conflicted),
        },
    }
}

pub open spec fn spec_resolve(entries: Seq<(Seq<char>, EvidenceEntryView)>, key: Seq<char>) -> Result<
    EvidenceRecordView,
    AdaptiveEvidenceResolveError,
> {
    match lookup(entries, key) {
        Some(EvidenceEntryView::Valid(r)) => Ok(r),
        Some(EvidenceEntryView::Conflicted) => Err(AdaptiveEvidenceResolveError::Conflicted),
        None => Err(AdaptiveEvidenceResolveError::NotFound),
    }
}

pub open spec fn spec_resolve_for_thread(
    entries: Seq<(Seq<char>, EvidenceEntryView)>,
    key: Seq<char>,
    thread_id: ThreadId,
) -> Result<EvidenceRecordView, AdaptiveEvidenceResolveError> {
    match spec_resolve(entries, key) {
        Ok(r) => if r.thread_id != thread_id {
            Err(AdaptiveEvidenceResolveError::CrossThread)
        } else {
            Ok(r)
        },
        Err(e) => Err(e),
    }
}

pub open spec fn spec_resolve_for_turn(
    entries: Seq<(Seq<char>, EvidenceEntryView)>,
    key: Seq<char>,
    thread_id: ThreadId,
    source_turn_id: Seq<char>,
) -> Result<EvidenceRecordView, AdaptiveEvidenceResolveError> {
    match spec_resolve_for_thread(entries, key, thread_id) {
        Ok(r) => if r.source_turn_id != source_turn_id {
            Err(AdaptiveEvidenceResolveError::SourceTurnMismatch)
        } else {
            Ok(r)
        },
        Err(e) => Err(e),
    }
}

pub open spec fn spec_validate_outcome(
    entries: Seq<(Seq<char>, EvidenceEntryView)>,
    key: Seq<char>,
    thread_id: ThreadId,
    expected: AdaptiveEvidenceOutcome,
) -> Result<EvidenceRecordView, AdaptiveEvidenceResolveError> {
    match spec_resolve_for_thread(entries, key, thread_id) {
        Ok(r) => if r.outcome != expected {
            Err(AdaptiveEvidenceResolveError::OutcomeMismatch)
        } else {
            Ok(r)
        },
        Err(e) => Err(e),
    }
}

pub open spec fn is_failure_in_turn(
    entry: EvidenceEntryView,
    thread_id: ThreadId,
    source_turn_id: Seq<char>,
) -> bool {
    entry matches EvidenceEntryView::Valid(r) && r.thread_id == thread_id && r.source_turn_id
        == source_turn_id && r.outcome == AdaptiveEvidenceOutcome::Failure
}

/// Number of valid failing records of `thread_id` that came from
/// `source_turn_id`; conflicted ids never count.
pub open spec fn failure_count(
    entries: Seq<(Seq<char>, EvidenceEntryView)>,
    thread_id: ThreadId,
    source_turn_id: Seq<char>,
) -> nat
    decreases entries.len(),
{
    if entries.len() == 0 {
        0
    } else {
        failure_count(entries.drop_last(), thread_id, source_turn_id) + if is_failure_in_turn(
            entries.last().1,
            thread_id,
            source_turn_id,
        ) {
            1nat
        } else {
            0nat
        }
    }
}

pub open spec fn resolve_view<'a>(
    r: Result<&'a AdaptiveEvidenceRecord, AdaptiveEvidenceResolveError>,
) -> Result<EvidenceRecordView, AdaptiveEvidenceResolveError> {
    match r {
        Ok(rec) => Ok(rec@),
        Err(e) => Err(e),
    }
}

impl View for AdaptiveEvidenceRegistry {
    type V = Seq<(Seq<char>, EvidenceEntryView)>;

    closed spec fn view(&self) -> Seq<(Seq<char>, EvidenceEntryView)> {
        self.entries@.map_values(|e: (String, AdaptiveEvidenceEntry)| (e.0@, e.1@))
    }
}

proof fn lemma_position_of(entries: Seq<(Seq<char>, EvidenceEntryView)>, key: Seq<char>)
    ensures
        position_of(entries, key) matches Some(i) ==> 0 <= i < entries.len() && entries[i].0
            == key,
        position_of(entries, key) is None ==> forall|i: int|
            0 <= i < entries.len() ==> #[trigger] entries[i].0 != key,
    decreases entries.len(),
{
    if entries.len() > 0 {
        lemma_position_of(entries.drop_last(), key);
        if entries.last().0 != key && position_of(entries.drop_last(), key) is None {
            assert forall|i: int| 0 <= i < entries.len() implies #[trigger] entries[i].0 != key by {
                if i < entries.len() - 1 {
                    assert(entries.drop_last()[i] == entries[i]);
                }
            }
        }
    }
}

proof fn lemma_position_unique(entries: Seq<(Seq<char>, EvidenceEntryView)>, key: Seq<char>, i: int)
    requires
        well_keyed(entries),
        0 <= i < entries.len(),
        entries[i].0 == key,
    ensures
        position_of(entries, key) == Some(i),
    decreases entries.len(),
{
    if i < entries.len() - 1 {
        assert(entries.last().0 != key);
        assert(well_keyed(entries.drop_last()));
        assert(entries.drop_last()[i] == entries[i]);
        lemma_position_unique(entries.drop_last(), key, i);
    }
}

impl AdaptiveEvidenceRegistry {
    #[verifier::type_invariant]
    spec fn keyed(self) -> bool {
        well_keyed(self@)
    }

    pub fn new() -> (r: Self)
        ensures
            r@ == Seq::<(Seq<char>, EvidenceEntryView)>::empty(),
            well_keyed(r@),
    {
        let r = AdaptiveEvidenceRegistry { entries: Vec::new() };
        assert(r@ =~= Seq::<(Seq<char>, EvidenceEntryView)>::empty());
        r
    }

    fn find(&self, key: &str) -> (r: Option<usize>)
        ensures
            match r {
                Some(i) => position_of(self@, key@) == Some(i as int) && i < self.entries@.len(),
                None => position_of(self@, key@) is None,
            },
    {
        proof {
            use_type_invariant(self);
        }
        let mut i: usize = 0;
        while i < self.entries.len()
            invariant
                i <= self.entries@.len(),
                self@.len() == self.entries@.len(),
                well_keyed(self@),
                forall|j: int| 0 <= j < i ==> #[trigger] self@[j].0 != key@,
            decreases self.entries@.len() - i,
        {
            if str_eq(self.entries[i].0.as_str(), key) {
                proof {
                    lemma_position_unique(self@, key@, i as int);
                }
                return Some(i);
            }
            i = i + 1;
        }
        proof {
            lemma_position_of(self@, key@);
            if position_of(self@, key@) is Some {
                let k = position_of(self@, key@)->0;
                assert(self@[k].0 == key@);
            }
        }
        None
    }

    pub fn register(&mut self, record: AdaptiveEvidenceRecord) -> (r: AdaptiveEvidenceRegistration)
        ensures
            (final(self)@, r) == spec_register(old(self)@, record@),
            well_keyed(old(self)@),
            well_keyed(final(self)@),
    {
        proof {
            use_type_invariant(&*self);
        }
        let ghost old_view = self@;
        match self.find(record.evidence_id.as_str()) {
            None => {
                proof {
                    lemma_position_of(old_view, record.evidence_id@);
                }
                let key = record.evidence_id.clone();
                let mut entries: Vec<(String, AdaptiveEvidenceEntry)> = Vec::new();
                std::mem::swap(&mut entries, &mut self.entries);
                entries.push((key, AdaptiveEvidenceEntry::Valid(record)));
                let ghost new_view = entries@.map_values(
                    |e: (String, AdaptiveEvidenceEntry)| (e.0@, e.1@),
                );
                assert(new_view =~= old_view.push(
                    (record@.evidence_id, EvidenceEntryView::Valid(record@)),
                ));
                self.entries = entries;
                AdaptiveEvidenceRegistration::Registered
            },
            Some(i) => {
                let duplicate = match &self.entries[i].1 {
                    AdaptiveEvidenceEntry::Valid(existing) => {
                        if existing.same_as(&record) {
                            Some(true)
                        } else {
                            Some(false)
                        }
                    },
                    AdaptiveEvidenceEntry::Conflicted => None,
                };
                assert(old_view[i as int] == (
                    self.entries@[i as int].0@,
                    self.entries@[i as int].1@,
                ));
                match duplicate {
                    Some(true) => AdaptiveEvidenceRegistration::Duplicate,
                    Some(false) => {
                        let mut entries: Vec<(String, AdaptiveEvidenceEntry)> = Vec::new();
                std::mem::swap(&mut entries, &mut self.entries);
                        entries.set(i, (record.evidence_id, AdaptiveEvidenceEntry::Conflicted));
                        let ghost new_view = entries@.map_values(
                            |e: (String, AdaptiveEvidenceEntry)| (e.0@, e.1@),
                        );
                        assert(new_view =~= old_view.update(
                            i as int,
                            (record@.evidence_id, EvidenceEntryView::Conflicted),
                        ));
                        proof {
                            lemma_position_of(old_view, record.evidence_id@);
                            assert forall|a: int, b: int|
                                0 <= a < b < new_view.len() implies #[trigger] new_view[a].0
                                != #[trigger] new_view[b].0 by {
                                assert(new_view[a].0 == old_view[a].0);
                                assert(new_view[b].0 == old_view[b].0);
                            }
                            assert(well_keyed(new_view));
                        }
                        self.entries = entries;
                        AdaptiveEvidenceRegistration::Conflicted
                    },
                    None => AdaptiveEvidenceRegistration::Conflicted,
                }
            },
        }
    }

    pub fn resolve(&self, evidence_id: &str) -> (r: Result<
        &AdaptiveEvidenceRecord,
        AdaptiveEvidenceResolveError,
    >)
        ensures
            resolve_view(r) == spec_resolve(self@, evidence_id@),
    {
        match self.find(evidence_id) {
            Some(i) => {
                assert(self@[i as int] == (self.entries@[i as int].0@, self.entries@[i as int].1@));
                match &self.entries[i].1 {
                    AdaptiveEvidenceEntry::Valid(record) => Ok(record),
                    AdaptiveEvidenceEntry::Conflicted => Err(
                        AdaptiveEvidenceResolveError::Conflicted,
                    ),
                }
            },
            None => Err(AdaptiveEvidenceResolveError::NotFound),
        }
    }

    pub fn resolve_for_thread(&self, evidence_id: &str, thread_id: ThreadId) -> (r: Result<
        &AdaptiveEvidenceRecord,
        AdaptiveEvidenceResolveError,
    >)
        ensures
            resolve_view(r) == spec_resolve_for_thread(self@, evidence_id@, thread_id),
    {
        let record = match self.resolve(evidence_id) {
            Ok(record) => record,
            Err(e) => return Err(e),
        };
        if record.thread_id != thread_id {
            return Err(AdaptiveEvidenceResolveError::CrossThread);
        }
        Ok(record)
    }

    pub fn resolve_for_turn(
        &self,
        evidence_id: &str,
        thread_id: ThreadId,
        source_turn_id: &str,
    ) -> (r: Result<&AdaptiveEvidenceRecord, AdaptiveEvidenceResolveError>)
        ensures
            resolve_view(r) == spec_resolve_for_turn(
                self@,
                evidence_id@,
                thread_id,
                source_turn_id@,
            ),
    {
        let record = match self.resolve_for_thread(evidence_id, thread_id) {
            Ok(record) => record,
            Err(e) => return Err(e),
        };
        if !str_eq(record.source_turn_id.as_str(), source_turn_id) {
            return Err(AdaptiveEvidenceResolveError::SourceTurnMismatch);
        }
        Ok(record)
    }

    pub fn validate_outcome(
        &self,
        evidence_id: &str,
        thread_id: ThreadId,
        expected: AdaptiveEvidenceOutcome,
    ) -> (r: Result<&AdaptiveEvidenceRecord, AdaptiveEvidenceResolveError>)
        ensures
            resolve_view(r) == spec_validate_outcome(self@, evidence_id@, thread_id, expected),
    {
        let record = match self.resolve_for_thread(evidence_id, thread_id) {
            Ok(record) => record,
            Err(e) => return Err(e),
        };
        if record.outcome != expected {
            return Err(AdaptiveEvidenceResolveError::OutcomeMismatch);
        }
        Ok(record)
    }

    pub fn len(&self) -> (n: usize)
        ensures
            n == self@.len(),
    {
        self.entries.len()
    }

    /// Native failure pressure of one turn: its valid failing records.
    pub fn failure_pressure_for_turn(&self, thread_id: ThreadId, source_turn_id: &str) -> (n: usize)
        ensures
            n == failure_count(self@, thread_id, source_turn_id@),
    {
        let mut count: usize = 0;
        let mut i: usize = 0;
        while i < self.entries.len()
            invariant
                i <= self.entries@.len(),
                self@.len() == self.entries@.len(),
                count <= i,
                count == failure_count(self@.subrange(0, i as int), thread_id, source_turn_id@),
            decreases self.entries@.len() - i,
        {
            assert(self@[i as int] == (self.entries@[i as int].0@, self.entries@[i as int].1@));
            let counts = match &self.entries[i].1 {
                AdaptiveEvidenceEntry::Valid(record) => record.thread_id == thread_id && str_eq(
                    record.source_turn_id.as_str(),
                    source_turn_id,
                ) && record.outcome == AdaptiveEvidenceOutcome::Failure,
                AdaptiveEvidenceEntry::Conflicted => false,
            };
            proof {
                let next = self@.subrange(0, i + 1);
                assert(next.drop_last() =~= self@.subrange(0, i as int));
                assert(next.last() == self@[i as int]);
            }
            if counts {
                count = count + 1;
            }
            i = i + 1;
        }
        assert(self@.subrange(0, i as int) =~= self@);
        count
    }
}

impl AdaptiveEvidenceEntry {
    pub fn duplicate(&self) -> (r: Self)
        ensures
            r == *self,
    {
        match self {
            AdaptiveEvidenceEntry::Valid(record) => AdaptiveEvidenceEntry::Valid(record.duplicate()),
            AdaptiveEvidenceEntry::Conflicted => AdaptiveEvidenceEntry::Conflicted,
        }
    }
}

impl Clone for AdaptiveEvidenceRegistry {
    fn clone(&self) -> (r: Self)
        ensures
            r@ == self@,
    {
        proof {
            use_type_invariant(self);
        }
        let mut entries: Vec<(String, AdaptiveEvidenceEntry)> = Vec::new();
        let mut i: usize = 0;
        while i < self.entries.len()
            invariant
                i <= self.entries@.len(),
                entries@.len() == i,
                forall|j: int| 0 <= j < i ==> #[trigger] entries@[j] == self.entries@[j],
            decreases self.entries@.len() - i,
        {
            entries.push((self.entries[i].0.clone(), self.entries[i].1.duplicate()));
            i = i + 1;
        }
        assert(entries@ =~= self.entries@);
        AdaptiveEvidenceRegistry { entries }
    }
}

impl Default for AdaptiveEvidenceRegistry {
    fn default() -> (r: Self)
        ensures
            r@ == Seq::<(Seq<char>, EvidenceEntryView)>::empty(),
    {
        AdaptiveEvidenceRegistry::new()
    }
}

/// Registration is idempotent: registering the same record again answers
/// `Duplicate` and changes nothing.
pub proof fn lemma_register_is_idempotent(
    entries: Seq<(Seq<char>, EvidenceEntryView)>,
    record: EvidenceRecordView,
)
    requires
        well_keyed(entries),
    ensures
        ({
            let (once, _) = spec_register(entries, record);
            let (twice, second) = spec_register(once, record);
            spec_register(once, record).0 == once && (second
                == AdaptiveEvidenceRegistration::Duplicate || second
                == AdaptiveEvidenceRegistration::Conflicted)
        }),
        ({
            let (once, first) = spec_register(entries, record);
            first == AdaptiveEvidenceRegistration::Registered ==> spec_register(once, record).1
                == AdaptiveEvidenceRegistration::Duplicate
        }),
{
    lemma_position_of(entries, record.evidence_id);
    let (once, first) = spec_register(entries, record);
    match position_of(entries, record.evidence_id) {
        None => {
            assert(well_keyed(once));
            lemma_position_unique(once, record.evidence_id, entries.len() as int);
        },
        Some(i) => {
            assert(well_keyed(once));
            lemma_position_unique(once, record.evidence_id, i);
        },
    }
}

/// A conflict is permanent: once an id is conflicted, every later
/// registration under it answers `Conflicted` and it resolves to `Conflicted`.
pub proof fn lemma_conflict_is_permanent(
    entries: Seq<(Seq<char>, EvidenceEntryView)>,
    record: EvidenceRecordView,
)
    requires
        well_keyed(entries),
        lookup(entries, record.evidence_id) == Some(EvidenceEntryView::Conflicted),
    ensures
        spec_register(entries, record) == (entries, AdaptiveEvidenceRegistration::Conflicted),
        spec_resolve(spec_register(entries, record).0, record.evidence_id) == Err::<
            EvidenceRecordView,
            AdaptiveEvidenceResolveError,
        >(AdaptiveEvidenceResolveError::Conflicted),
{
}

/// Registering under one id never changes what another id resolves to, and a
/// different record under a valid id conflicts it.
pub proof fn lemma_register_is_local(
    entries: Seq<(Seq<char>, EvidenceEntryView)>,
    record: EvidenceRecordView,
    other: Seq<char>,
)
    requires
        well_keyed(entries),
        other != record.evidence_id,
    ensures
        lookup(spec_register(entries, record).0, other) == lookup(entries, other),
        lookup(entries, record.evidence_id) matches Some(EvidenceEntryView::Valid(existing))
            ==> (existing != record <==> lookup(spec_register(entries, record).0, record.evidence_id)
            == Some(EvidenceEntryView::Conflicted)),
        well_keyed(spec_register(entries, record).0),
{
    lemma_position_of(entries, other);
    lemma_position_of(entries, record.evidence_id);
    let after = spec_register(entries, record).0;
    assert(well_keyed(after));
    match position_of(entries, other) {
        Some(j) => {
            lemma_position_unique(after, other, j);
        },
        None => {
            lemma_position_of(after, other);
        },
    }
    match position_of(entries, record.evidence_id) {
        Some(i) => {
            lemma_position_unique(after, record.evidence_id, i);
        },
        None => {},
    }
}

/// Status of a native command execution item.
#[derive(Clone, Copy, Debug, PartialEq, Eq, Structural)]
pub enum CommandExecutionStatus {
    InProgress,
    Completed,
    Failed,
    Declined,
}

#[derive(Clone, Copy, Debug, PartialEq, Eq, Structural)]
pub enum McpToolCallStatus {
    InProgress,
    Completed,
    Failed,
}

#[derive(Clone, Copy, Debug, PartialEq, Eq, Structural)]
pub enum DynamicToolCallStatus {
    InProgress,
    Completed,
    Failed,
}

/// One piece of user input.
#[derive(Clone, Debug, PartialEq, Eq)]
pub enum UserInput {
    Text { text: String },
    Other,
}

/// The facts of a completed thread item that adaptive evidence reads; command
/// text and output are deliberately absent.
#[derive(Clone, Debug, PartialEq, Eq)]
pub enum ThreadItem {
    CommandExecution { id: String, status: CommandExecutionStatus },
    McpToolCall { id: String, status: McpToolCallStatus },
    DynamicToolCall { id: String, status: DynamicToolCallStatus, success: Option<bool> },
    UserMessage { id: String, content: Vec<UserInput> },
    Other,
}

/// A completed item, with the thread id as it was reported.
#[derive(Clone, Debug, PartialEq, Eq)]
pub struct ItemCompletedNotification {
    pub item: ThreadItem,
    pub thread_id: String,
    pub turn_id: String,
    pub completed_at_ms: i64,
}

pub open spec fn command_outcome(status: CommandExecutionStatus) -> AdaptiveEvidenceOutcome {
    match status {
        CommandExecutionStatus::Completed => AdaptiveEvidenceOutcome::Success,
        CommandExecutionStatus::Failed => AdaptiveEvidenceOutcome::Failure,
        CommandExecutionStatus::Declined => AdaptiveEvidenceOutcome::Cancelled,
        CommandExecutionStatus::InProgress => AdaptiveEvidenceOutcome::Incomplete,
    }
}

pub open spec fn mcp_outcome(status: McpToolCallStatus) -> AdaptiveEvidenceOutcome {
    match status {
        McpToolCallStatus::Completed => AdaptiveEvidenceOutcome::Success,
        McpToolCallStatus::Failed => AdaptiveEvidenceOutcome::Failure,
        McpToolCallStatus::InProgress => AdaptiveEvidenceOutcome::Incomplete,
    }
}

/// A dynamic tool call succeeds only when completed with explicit success;
/// explicit failure or a failed status is a failure; anything else is
/// incomplete.
pub open spec fn dynamic_outcome(status: DynamicToolCallStatus, success: Option<bool>) -> AdaptiveEvidenceOutcome {
    match (status, success) {
        (DynamicToolCallStatus::Completed, Some(true)) => AdaptiveEvidenceOutcome::Success,
        (DynamicToolCallStatus::Failed, _) => AdaptiveEvidenceOutcome::Failure,
        (DynamicToolCallStatus::Completed, Some(false)) => AdaptiveEvidenceOutcome::Failure,
        _ => AdaptiveEvidenceOutcome::Incomplete,
    }
}

pub open spec fn spec_record_from_item(n: ItemCompletedNotification) -> Option<EvidenceRecordView> {
    match spec_parse_thread_id(n.thread_id@) {
        None => None,
        Some(thread_id) => match n.item {
            ThreadItem::CommandExecution { id, status } => Some(
                EvidenceRecordView {
                    evidence_id: id@,
                    thread_id,
                    source_turn_id: n.turn_id@,
                    outcome: command_outcome(status),
                    kind: AdaptiveEvidenceKind::CommandExecution,
                },
            ),
            ThreadItem::McpToolCall { id, status } => Some(
                EvidenceRecordView {
                    evidence_id: id@,
                    thread_id,
                    source_turn_id: n.turn_id@,
                    outcome: mcp_outcome(status),
                    kind: AdaptiveEvidenceKind::McpToolCall,
                },
            ),
            ThreadItem::DynamicToolCall { id, status, success } => Some(
                EvidenceRecordView {
                    evidence_id: id@,
                    thread_id,
                    source_turn_id: n.turn_id@,
                    outcome: dynamic_outcome(status, success),
                    kind: AdaptiveEvidenceKind::DynamicToolCall,
                },
            ),
            _ => None,
        },
    }
}

pub open spec fn opt_record_view(r: Option<AdaptiveEvidenceRecord>) -> Option<EvidenceRecordView> {
    match r {
        Some(rec) => Some(rec@),
        None => None,
    }
}

/// The typed evidence of a completed native tool item: its runtime call id,
/// thread, turn and status-derived outcome. Output text never upgrades an
/// outcome.
pub fn record_from_item_completion(notification: &ItemCompletedNotification) -> (r: Option<
    AdaptiveEvidenceRecord,
>)
    ensures
        opt_record_view(r) == spec_record_from_item(*notification),
{
    let thread_id = match parse_thread_id(notification.thread_id.as_str()) {
        Some(t) => t,
        None => return None,
    };
    let (evidence_id, outcome, kind) = match &notification.item {
        ThreadItem::CommandExecution { id, status } => (
            id.clone(),
            match status {
                CommandExecutionStatus::Completed => AdaptiveEvidenceOutcome::Success,
                CommandExecutionStatus::Failed => AdaptiveEvidenceOutcome::Failure,
                CommandExecutionStatus::Declined => AdaptiveEvidenceOutcome::Cancelled,
                CommandExecutionStatus::InProgress => AdaptiveEvidenceOutcome::Incomplete,
            },
            AdaptiveEvidenceKind::CommandExecution,
        ),
        ThreadItem::McpToolCall { id, status } => (
            id.clone(),
            match status {
                McpToolCallStatus::Completed => AdaptiveEvidenceOutcome::Success,
                McpToolCallStatus::Failed => AdaptiveEvidenceOutcome::Failure,
                McpToolCallStatus::InProgress => AdaptiveEvidenceOutcome::Incomplete,
            },
            AdaptiveEvidenceKind::McpToolCall,
        ),
        ThreadItem::DynamicToolCall { id, status, success } => (
            id.clone(),
            match (status, success) {
                (DynamicToolCallStatus::Completed, Some(true)) => AdaptiveEvidenceOutcome::Success,
                (DynamicToolCallStatus::Completed, Some(false))
                | (DynamicToolCallStatus::Failed, _) => AdaptiveEvidenceOutcome::Failure,
                (DynamicToolCallStatus::InProgress, _)
                | (DynamicToolCallStatus::Completed, None) => AdaptiveEvidenceOutcome::Incomplete,
            },
            AdaptiveEvidenceKind::DynamicToolCall,
        ),
        _ => return None,
    };
    Some(
        AdaptiveEvidenceRecord {
            evidence_id,
            thread_id,
            source_turn_id: notification.turn_id.clone(),
            outcome,
            kind,
        },
    )
}

/// The evidence a completed native tool item yields, whenever its thread id
/// reads: it carries the item's own id, thread and turn; it is a failure
/// exactly when the item reports one (a failed command or MCP call, or a
/// dynamic call that failed, or completed with a success flag of false; one
/// still in progress stays incomplete whatever its flag says), a success
/// exactly when the item completed (for a dynamic call, with an explicit
/// success flag of true), and a cancellation only for a declined command.
pub proof fn lemma_item_evidence_outcome(n: ItemCompletedNotification, t: ThreadId)
    requires
        spec_parse_thread_id(n.thread_id@) == Some(t),
    ensures
        match n.item {
            ThreadItem::CommandExecution { id, status } => {
                let r = spec_record_from_item(n);
                &&& r is Some
                &&& r->0.evidence_id == id@ && r->0.thread_id == t && r->0.source_turn_id == n.turn_id@
                &&& r->0.kind == AdaptiveEvidenceKind::CommandExecution
                &&& (r->0.outcome == AdaptiveEvidenceOutcome::Failure) == (status
                    == CommandExecutionStatus::Failed)
                &&& (r->0.outcome == AdaptiveEvidenceOutcome::Success) == (status
                    == CommandExecutionStatus::Completed)
                &&& (r->0.outcome == AdaptiveEvidenceOutcome::Cancelled) == (status
                    == CommandExecutionStatus::Declined)
            },
            ThreadItem::McpToolCall { id, status } => {
                let r = spec_record_from_item(n);
                &&& r is Some
                &&& r->0.evidence_id == id@ && r->0.thread_id == t && r->0.source_turn_id == n.turn_id@
                &&& r->0.kind == AdaptiveEvidenceKind::McpToolCall
                &&& (r->0.outcome == AdaptiveEvidenceOutcome::Failure) == (status
                    == McpToolCallStatus::Failed)
                &&& (r->0.outcome == AdaptiveEvidenceOutcome::Success) == (status
                    == McpToolCallStatus::Completed)
                &&& r->0.outcome != AdaptiveEvidenceOutcome::Cancelled
            },
            ThreadItem::DynamicToolCall { id, status, success } => {
                let r = spec_record_from_item(n);
                &&& r is Some
                &&& r->0.evidence_id == id@ && r->0.thread_id == t && r->0.source_turn_id == n.turn_id@
                &&& r->0.kind == AdaptiveEvidenceKind::DynamicToolCall
                &&& (r->0.outcome == AdaptiveEvidenceOutcome::Failure) == (status
                    == DynamicToolCallStatus::Failed || (status == DynamicToolCallStatus::Completed
                    && success == Some(false)))
                &&& (r->0.outcome == AdaptiveEvidenceOutcome::Success) == (status
                    == DynamicToolCallStatus::Completed && success == Some(true))
                &&& r->0.outcome != AdaptiveEvidenceOutcome::Cancelled
            },
            _ => spec_record_from_item(n) is None,
        },
{
    match n.item {
        ThreadItem::CommandExecution { id, status } => {
            assert(spec_record_from_item(n)->0.outcome == command_outcome(status));
            match status {
                CommandExecutionStatus::Completed => {},
                CommandExecutionStatus::Failed => {},
                CommandExecutionStatus::Declined => {},
                CommandExecutionStatus::InProgress => {},
            }
        },
        _ => {},
    }
}

} // verus!
