//! Aggregated diagnostics for failed expression lookups.
//!
//! A failure is keyed by what failed — the block tag, the byte offset, the
//! requested type and the failure category — and repeated identical failures
//! increment one counter instead of producing duplicate records. The map is
//! pure bookkeeping: recording never changes a resolution outcome.

use vstd::prelude::*;

use crate::kinds::TfxExtern;
use crate::values::FieldType;

verus! {

/// Category of a failure against a populated block.
#[derive(Clone, Copy, Debug, PartialEq, Eq, Structural)]
pub enum FieldFailure {
    Unimplemented,
    InvalidType,
    FieldNotFound,
}

/// A fault that halts one bytecode evaluation: a runtime type or operand
/// mismatch. It degrades that evaluation alone and is reported through the
/// diagnostics, never raised further.
#[derive(Clone, Copy, Debug, PartialEq, Eq, Structural)]
pub enum TfxEvalError {
    /// An opcode needed more operands than the stack holds.
    StackUnderflow,
    /// An operand's type does not match what the opcode expects.
    TypeMismatch,
    /// A constant-pool index beyond the pool handed to the evaluation.
    ConstantOutOfBounds,
    /// An output slot beyond the destination image.
    OutputOutOfBounds,
}

/// Category of a failure before any field was consulted.
#[derive(Clone, Copy, Debug, PartialEq, Eq, Structural)]
pub enum StorageFailure {
    /// The tag has no registered block layout.
    NotFound,
    /// The block is registered but was not populated this frame.
    NotSet,
}

/// Identity of one kind of failure; identical failures share one record.
#[derive(Clone, Copy, Debug, PartialEq, Eq, Structural)]
pub enum ErrorKey {
    /// A lookup reached a populated block and failed there.
    Field { kind: TfxExtern, offset: usize, requested: FieldType, failure: FieldFailure },
    /// A lookup failed for the block as a whole; the offset and requested
    /// type it was after still identify the failure.
    Storage { kind: TfxExtern, offset: usize, requested: FieldType, failure: StorageFailure },
    /// A bytecode evaluation halted on a fault.
    Eval { fault: TfxEvalError },
}

/// Detail stored with a failure record.
#[derive(Clone, Copy, Debug, PartialEq, Eq, Structural)]
pub enum TfxExpressionErrorType {
    /// The field exists in the layout but is intentionally unbacked.
    Unimplemented { field_offset: usize },
    /// The requested type differs from the registered one, which is carried.
    InvalidType(FieldType),
    /// No field is registered at the offset.
    FieldNotFound { field_offset: usize },
    /// The tag has no registered block layout at all.
    ExternNotFound,
    /// The block is registered but was not populated this frame.
    ExternNotSet,
    /// A bytecode evaluation halted on the carried fault.
    EvalFault(TfxEvalError),
}

/// One failure record: its detail and how often it has repeated.
#[derive(Clone, Copy, Debug, PartialEq, Eq, Structural)]
pub struct TfxExpressionError {
    pub error_type: TfxExpressionErrorType,
    pub repeat_count: usize,
}

/// A stored record together with the key it stands for.
#[derive(Clone, Copy, Debug, PartialEq, Eq, Structural)]
pub struct ErrorEntry {
    pub key: ErrorKey,
    pub error: TfxExpressionError,
}

/// The failure records, one per distinct key.
#[derive(Debug)]
pub struct TfxExpressionErrorMap {
    entries: Vec<ErrorEntry>,
}

/// A counter increment that stays put at the machine limit; the counter is a
/// monitoring aid, not a correctness gate.
pub open spec fn bump(c: usize) -> usize {
    if c == usize::MAX {
        c
    } else {
        (c + 1) as usize
    }
}

/// The map a sequence of records stands for.
pub open spec fn seq_model(s: Seq<ErrorEntry>) -> Map<ErrorKey, TfxExpressionError>
    decreases s.len(),
{
    if s.len() == 0 {
        Map::empty()
    } else {
        seq_model(s.drop_last()).insert(s.last().key, s.last().error)
    }
}

/// No two records share a key.
pub open spec fn distinct_keys(s: Seq<ErrorEntry>) -> bool {
    forall|i: int, j: int| 0 <= i < j < s.len() ==> s[i].key != s[j].key
}

/// Recording a failure: a fresh key gains a record with count 1 and the given
/// detail; a known key keeps its detail and its count is bumped.
pub open spec fn spec_record(
    m: Map<ErrorKey, TfxExpressionError>,
    key: ErrorKey,
    error_type: TfxExpressionErrorType,
) -> Map<ErrorKey, TfxExpressionError> {
    if m.dom().contains(key) {
        m.insert(
            key,
            TfxExpressionError {
                error_type: m[key].error_type,
                repeat_count: bump(m[key].repeat_count),
            },
        )
    } else {
        m.insert(key, TfxExpressionError { error_type, repeat_count: 1 })
    }
}

/// One diagnostic emission: the key it files under and its stored detail.
#[derive(Clone, Copy, Debug, PartialEq, Eq, Structural)]
pub struct DiagEvent {
    pub key: ErrorKey,
    pub detail: TfxExpressionErrorType,
}

/// The map after a run of emissions has been recorded in order.
pub open spec fn spec_apply_diags(
    m: Map<ErrorKey, TfxExpressionError>,
    events: Seq<DiagEvent>,
) -> Map<ErrorKey, TfxExpressionError>
    decreases events.len(),
{
    if events.len() == 0 {
        m
    } else {
        spec_record(
            spec_apply_diags(m, events.drop_last()),
            events.last().key,
            events.last().detail,
        )
    }
}

/// Recording the same failure n times over.
pub open spec fn spec_record_n(
    m: Map<ErrorKey, TfxExpressionError>,
    key: ErrorKey,
    error_type: TfxExpressionErrorType,
    n: nat,
) -> Map<ErrorKey, TfxExpressionError>
    decreases n,
{
    if n == 0 {
        m
    } else {
        spec_record(spec_record_n(m, key, error_type, (n - 1) as nat), key, error_type)
    }
}

proof fn lemma_seq_model_dom(s: Seq<ErrorEntry>)
    ensures
        forall|k: ErrorKey|
            seq_model(s).dom().contains(k) <==> exists|i: int| 0 <= i < s.len() && s[i].key == k,
    decreases s.len(),
{
    if s.len() > 0 {
        lemma_seq_model_dom(s.drop_last());
        assert forall|k: ErrorKey| seq_model(s).dom().contains(k) implies exists|i: int|
            0 <= i < s.len() && s[i].key == k by {
            if k == s.last().key {
                assert(s[s.len() - 1].key == k);
            } else {
                assert(seq_model(s.drop_last()).dom().contains(k));
                assert(exists|i: int|
                    0 <= i < s.drop_last().len() && s.drop_last()[i].key == k);
                let i = choose|i: int| 0 <= i < s.drop_last().len() && s.drop_last()[i].key == k;
                assert(s.drop_last()[i] == s[i]);
                assert(s[i].key == k);
            }
        }
        assert forall|k: ErrorKey|
            (exists|i: int| 0 <= i < s.len() && s[i].key == k) implies seq_model(
            s,
        ).dom().contains(k) by {
            let i = choose|i: int| 0 <= i < s.len() && s[i].key == k;
            if i < s.len() - 1 {
                assert(s.drop_last()[i].key == k);
            }
        }
    }
}

proof fn lemma_seq_model_get(s: Seq<ErrorEntry>, i: int)
    requires
        distinct_keys(s),
        0 <= i < s.len(),
    ensures
        seq_model(s).dom().contains(s[i].key),
        seq_model(s)[s[i].key] == s[i].error,
    decreases s.len(),
{
    if i == s.len() - 1 {
    } else {
        assert(distinct_keys(s.drop_last()));
        assert(s.drop_last()[i] == s[i]);
        lemma_seq_model_get(s.drop_last(), i);
        assert(s[i].key != s.last().key);
    }
}

proof fn lemma_seq_model_update(s: Seq<ErrorEntry>, i: int, e: ErrorEntry)
    requires
        distinct_keys(s),
        0 <= i < s.len(),
        e.key == s[i].key,
    ensures
        seq_model(s.update(i, e)) == seq_model(s).insert(e.key, e.error),
    decreases s.len(),
{
    let su = s.update(i, e);
    if i == s.len() - 1 {
        assert(su.drop_last() =~= s.drop_last());
        assert(su.last() == e);
        assert(seq_model(su) == seq_model(s.drop_last()).insert(e.key, e.error));
        assert(seq_model(s.drop_last()).insert(e.key, e.error) =~= seq_model(s).insert(
            e.key,
            e.error,
        ));
    } else {
        assert(distinct_keys(s.drop_last()));
        assert(s.drop_last()[i] == s[i]);
        lemma_seq_model_update(s.drop_last(), i, e);
        assert(su.drop_last() =~= s.drop_last().update(i, e));
        assert(su.last() == s.last());
        // The updated key differs from the last record's key, so the two
        // inserts commute.
        assert(s[i].key != s.last().key);
        assert(seq_model(s.drop_last()).insert(e.key, e.error).insert(
            s.last().key,
            s.last().error,
        ) =~= seq_model(s.drop_last()).insert(s.last().key, s.last().error).insert(
            e.key,
            e.error,
        ));
    }
}

proof fn lemma_seq_model_dom_len(s: Seq<ErrorEntry>)
    requires
        distinct_keys(s),
    ensures
        seq_model(s).dom().finite(),
        seq_model(s).dom().len() == s.len(),
    decreases s.len(),
{
    if s.len() > 0 {
        assert(distinct_keys(s.drop_last()));
        lemma_seq_model_dom_len(s.drop_last());
        lemma_seq_model_dom(s.drop_last());
        assert(!seq_model(s.drop_last()).dom().contains(s.last().key));
    }
}

impl View for TfxExpressionErrorMap {
    type V = Map<ErrorKey, TfxExpressionError>;

    closed spec fn view(&self) -> Map<ErrorKey, TfxExpressionError> {
        seq_model(self.entries@)
    }
}

impl TfxExpressionErrorMap {
    #[verifier::type_invariant]
    closed spec fn wf(self) -> bool {
        distinct_keys(self.entries@)
    }

    /// An empty map.
    pub fn new() -> (r: Self)
        ensures
            r@ == Map::<ErrorKey, TfxExpressionError>::empty(),
    {
        TfxExpressionErrorMap { entries: Vec::new() }
    }

    /// How many distinct failures have been recorded.
    pub fn len(&self) -> (r: usize)
        ensures
            r == self@.dom().len(),
            self@.dom().finite(),
    {
        proof {
            use_type_invariant(self);
            lemma_seq_model_dom_len(self.entries@);
        }
        self.entries.len()
    }

    /// The record for a key, if that failure has been seen.
    pub fn get(&self, key: ErrorKey) -> (r: Option<TfxExpressionError>)
        ensures
            r == (if self@.dom().contains(key) {
                Some(self@[key])
            } else {
                Option::<TfxExpressionError>::None
            }),
    {
        proof {
            use_type_invariant(self);
        }
        let n = self.entries.len();
        let mut i: usize = 0;
        while i < n
            invariant
                n == self.entries@.len(),
                0 <= i <= n,
                distinct_keys(self.entries@),
                forall|j: int| 0 <= j < i ==> self.entries@[j].key != key,
            decreases n - i,
        {
            if self.entries[i].key == key {
                proof {
                    lemma_seq_model_get(self.entries@, i as int);
                }
                return Some(self.entries[i].error);
            }
            i += 1;
        }
        proof {
            lemma_seq_model_dom(self.entries@);
        }
        None
    }

    /// The key and record at one position, for inspection tooling.
    pub fn entry_at(&self, i: usize) -> (r: ErrorEntry)
        requires
            i < self@.dom().len(),
        ensures
            self@.dom().contains(r.key),
            self@[r.key] == r.error,
    {
        proof {
            use_type_invariant(self);
            lemma_seq_model_dom_len(self.entries@);
            lemma_seq_model_get(self.entries@, i as int);
        }
        self.entries[i]
    }

    /// Records one failure: bumps the counter of the record under this key,
    /// or starts a fresh record at count 1.
    pub fn record(&mut self, key: ErrorKey, error_type: TfxExpressionErrorType)
        ensures
            final(self)@ == spec_record(old(self)@, key, error_type),
    {
        proof {
            use_type_invariant(&*self);
        }
        let n = self.entries.len();
        let mut i: usize = 0;
        while i < n
            invariant
                n == self.entries@.len(),
                0 <= i <= n,
                distinct_keys(self.entries@),
                self.entries@ == old(self).entries@,
                forall|j: int| 0 <= j < i ==> self.entries@[j].key != key,
            decreases n - i,
        {
            if self.entries[i].key == key {
                proof {
                    lemma_seq_model_get(self.entries@, i as int);
                }
                let found = self.entries[i];
                let bumped = if found.error.repeat_count == usize::MAX {
                    usize::MAX
                } else {
                    found.error.repeat_count + 1
                };
                let refreshed = ErrorEntry {
                    key,
                    error: TfxExpressionError {
                        error_type: found.error.error_type,
                        repeat_count: bumped,
                    },
                };
                let mut entries: Vec<ErrorEntry> = Vec::new();
                core::mem::swap(&mut entries, &mut self.entries);
                entries[i] = refreshed;
                proof {
                    assert(distinct_keys(entries@)) by {
                        assert(forall|j: int|
                            0 <= j < entries@.len() ==> entries@[j].key == old(
                                self,
                            ).entries@[j].key);
                    }
                    lemma_seq_model_update(old(self).entries@, i as int, refreshed);
                }
                core::mem::swap(&mut entries, &mut self.entries);
                return ;
            }
            i += 1;
        }
        proof {
            lemma_seq_model_dom(self.entries@);
        }
        let mut entries: Vec<ErrorEntry> = Vec::new();
        core::mem::swap(&mut entries, &mut self.entries);
        entries.push(ErrorEntry { key, error: TfxExpressionError { error_type, repeat_count: 1 } });
        proof {
            assert(entries@.drop_last() =~= old(self).entries@);
            assert(distinct_keys(entries@)) by {
                assert(forall|j: int|
                    0 <= j < old(self).entries@.len() ==> entries@[j] == old(self).entries@[j]);
            }
        }
        core::mem::swap(&mut entries, &mut self.entries);
    }
}

impl Default for TfxExpressionErrorMap {
    /// An empty map.
    fn default() -> (r: Self)
        ensures
            r@ == Map::<ErrorKey, TfxExpressionError>::empty(),
    {
        TfxExpressionErrorMap::new()
    }
}

/// Repeated identical failures pile up in one record: recording a fresh key
/// n times yields a map with exactly that one record added, its detail as
/// first given and its counter at n; every other key is untouched.
pub proof fn lemma_repeated_failures_single_record(
    m: Map<ErrorKey, TfxExpressionError>,
    key: ErrorKey,
    error_type: TfxExpressionErrorType,
    n: nat,
)
    requires
        !m.dom().contains(key),
        1 <= n <= usize::MAX,
    ensures
        spec_record_n(m, key, error_type, n).dom() =~= m.dom().insert(key),
        spec_record_n(m, key, error_type, n)[key].repeat_count == n,
        spec_record_n(m, key, error_type, n)[key].error_type == error_type,
        forall|k2: ErrorKey|
            k2 != key && m.dom().contains(k2) ==> spec_record_n(m, key, error_type, n)[k2]
                == m[k2],
    decreases n,
{
    if n == 1 {
        assert(spec_record_n(m, key, error_type, 0) == m);
    } else {
        lemma_repeated_failures_single_record(m, key, error_type, (n - 1) as nat);
    }
}

} // verus!
