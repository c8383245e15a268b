//! Target rep ranges and the table that finds them by exercise template and
//! set position.

use vstd::prelude::*;
use crate::models::{
    text_of, routine_view, Routine, RoutineExercise, RoutineExerciseView, RoutineSet,
    RoutineSetView, RoutineView,
};

verus! {

/// An inclusive range of rep counts that a set is measured against.
#[derive(Clone, Copy, Debug, PartialEq, Eq, Structural)]
pub struct TargetRange {
    pub lo: i64,
    pub hi: i64,
}

/// The range used wherever a routine gives no target.
pub open spec fn default_range() -> TargetRange {
    TargetRange { lo: 8, hi: 10 }
}

/// The range around a fixed rep count: one rep less to one rep more. The
/// lower bound stops at zero, the upper bound at the largest `i64`.
pub open spec fn range_around(reps: i64) -> TargetRange {
    TargetRange {
        lo: if reps <= 1 { 0 } else { (reps - 1) as i64 },
        hi: if reps == i64::MAX { reps } else { (reps + 1) as i64 },
    }
}

/// The target range that a routine set stands for.
///
/// A declared rep range wins over a fixed rep count. Its bounds are taken as
/// they are; a missing upper bound repeats the lower one, and a missing lower
/// bound is 8. Without a rep range the fixed rep count gives
/// `range_around`, and without either the range is `default_range`.
pub open spec fn target_of(s: RoutineSetView) -> TargetRange {
    match s.rep_range {
        Some(range) => {
            let lo = match range.start {
                Some(v) => v,
                None => 8i64,
            };
            let hi = match range.end {
                Some(v) => v,
                None => lo,
            };
            TargetRange { lo, hi }
        },
        None => match s.reps {
            Some(r) => range_around(r),
            None => default_range(),
        },
    }
}

/// The targets of the first `n` sets of `ex`, written over `m` in set order.
/// An exercise without a template identifier writes nothing.
pub open spec fn exercise_targets(
    m: Map<(Seq<char>, nat), TargetRange>,
    ex: RoutineExerciseView,
    n: nat,
) -> Map<(Seq<char>, nat), TargetRange>
    decreases n,
{
    if n == 0 {
        m
    } else {
        match ex.exercise_template_id {
            Some(id) => exercise_targets(m, ex, (n - 1) as nat).insert(
                (id, (n - 1) as nat),
                target_of(ex.sets[n - 1]),
            ),
            None => m,
        }
    }
}

/// The targets of the first `n` exercises, written over `m` in exercise
/// order, so that a later exercise overwrites an earlier one on the same key.
pub open spec fn routine_targets(
    m: Map<(Seq<char>, nat), TargetRange>,
    exercises: Seq<RoutineExerciseView>,
    n: nat,
) -> Map<(Seq<char>, nat), TargetRange>
    decreases n,
{
    if n == 0 {
        m
    } else {
        exercise_targets(
            routine_targets(m, exercises, (n - 1) as nat),
            exercises[n - 1],
            exercises[n - 1].sets.len(),
        )
    }
}

/// The lookup table of a routine; empty when there is no routine.
pub open spec fn targets_of(r: Option<RoutineView>) -> Map<(Seq<char>, nat), TargetRange> {
    match r {
        Some(r) => routine_targets(Map::empty(), r.exercises, r.exercises.len()),
        None => Map::empty(),
    }
}

/// The range that set `i` of a workout exercise is measured against: the
/// entry for the exercise's template and the set's position, or
/// `default_range` where the exercise has no template or the table no entry.
pub open spec fn lookup(
    m: Map<(Seq<char>, nat), TargetRange>,
    template_id: Option<Seq<char>>,
    i: nat,
) -> TargetRange {
    match template_id {
        Some(id) => if m.contains_key((id, i)) {
            m[(id, i)]
        } else {
            default_range()
        },
        None => default_range(),
    }
}

/// What the first `n` sets of `ex` bind `k` to, if they bind it.
pub open spec fn exercise_binding(ex: RoutineExerciseView, n: nat, k: (Seq<char>, nat)) -> Option<
    TargetRange,
> {
    if ex.exercise_template_id == Some(k.0) && k.1 < n {
        Some(target_of(ex.sets[k.1 as int]))
    } else {
        None
    }
}

/// What the first `n` exercises bind `k` to, if any of them binds it: the
/// binding of the last exercise that has one.
pub open spec fn routine_binding(exercises: Seq<RoutineExerciseView>, n: nat, k: (Seq<char>, nat)) -> Option<
    TargetRange,
>
    decreases n,
{
    if n == 0 {
        None
    } else {
        match exercise_binding(exercises[n - 1], exercises[n - 1].sets.len(), k) {
            Some(v) => Some(v),
            None => routine_binding(exercises, (n - 1) as nat, k),
        }
    }
}

/// Writing an exercise's targets binds exactly the keys made of its template
/// and the positions of its sets, each to the target of the set at that
/// position, and leaves every other key as it was.
pub proof fn lemma_exercise_targets(
    m: Map<(Seq<char>, nat), TargetRange>,
    ex: RoutineExerciseView,
    n: nat,
    k: (Seq<char>, nat),
)
    ensures
        exercise_targets(m, ex, n).contains_key(k) <==> exercise_binding(ex, n, k) is Some
            || m.contains_key(k),
        exercise_targets(m, ex, n).contains_key(k) ==> exercise_targets(m, ex, n)[k] == (
        match exercise_binding(ex, n, k) {
            Some(v) => v,
            None => m[k],
        }),
    decreases n,
{
    if n > 0 && ex.exercise_template_id is Some {
        lemma_exercise_targets(m, ex, (n - 1) as nat, k);
    }
}

/// Writing a routine's targets binds exactly the keys that one of its
/// exercises binds, each as the last such exercise binds it, and leaves every
/// other key as it was.
pub proof fn lemma_routine_targets(
    m: Map<(Seq<char>, nat), TargetRange>,
    exercises: Seq<RoutineExerciseView>,
    n: nat,
    k: (Seq<char>, nat),
)
    ensures
        routine_targets(m, exercises, n).contains_key(k) <==> routine_binding(exercises, n, k)
            is Some || m.contains_key(k),
        routine_targets(m, exercises, n).contains_key(k) ==> routine_targets(m, exercises, n)[k]
            == (match routine_binding(exercises, n, k) {
            Some(v) => v,
            None => m[k],
        }),
    decreases n,
{
    if n > 0 {
        let before = routine_targets(m, exercises, (n - 1) as nat);
        lemma_routine_targets(m, exercises, (n - 1) as nat, k);
        lemma_exercise_targets(before, exercises[n - 1], exercises[n - 1].sets.len(), k);
    }
}

/// Resolution is idempotent: writing the targets of the same exercises a
/// second time changes nothing, so resolving a routine twice gives the same
/// mapping as resolving it once.
pub proof fn lemma_resolution_idempotent(
    m: Map<(Seq<char>, nat), TargetRange>,
    exercises: Seq<RoutineExerciseView>,
)
    ensures
        routine_targets(routine_targets(m, exercises, exercises.len()), exercises, exercises.len())
            == routine_targets(m, exercises, exercises.len()),
{
    let n = exercises.len();
    let once = routine_targets(m, exercises, n);
    let twice = routine_targets(once, exercises, n);
    assert forall|k: (Seq<char>, nat)| #[trigger]
        twice.dom().contains(k) == once.dom().contains(k) && (twice.dom().contains(k) ==> twice[k]
            == once[k]) by {
        lemma_routine_targets(m, exercises, n, k);
        lemma_routine_targets(once, exercises, n, k);
    }
    assert(twice =~= once);
}

/// Resolution is repeatable: two tables that were each resolved from the
/// same routine hold the same mapping.
pub proof fn lemma_resolution_repeatable(a: TargetTable, b: TargetTable, r: Option<RoutineView>)
    requires
        a@ == targets_of(r),
        b@ == targets_of(r),
    ensures
        a@ == b@,
{
}

/// Targets are matched by position: where exercise `e` of a routine carries
/// template `id` and has a set at position `i`, and no later exercise of the
/// routine carries the same template with a set at that position, the lookup
/// of `(id, i)` gives the target of that set, wherever in the routine the
/// exercise stands.
pub proof fn lemma_positional_match(r: RoutineView, e: int, id: Seq<char>, i: nat)
    requires
        0 <= e < r.exercises.len(),
        r.exercises[e].exercise_template_id == Some(id),
        i < r.exercises[e].sets.len(),
        forall|later: int|
            #![trigger r.exercises[later]]
            e < later < r.exercises.len() ==> !(r.exercises[later].exercise_template_id == Some(id)
                && i < r.exercises[later].sets.len()),
    ensures
        lookup(targets_of(Some(r)), Some(id), i) == target_of(r.exercises[e].sets[i as int]),
{
    lemma_binding_of_last(r.exercises, r.exercises.len(), e, (id, i));
    lemma_routine_targets(Map::empty(), r.exercises, r.exercises.len(), (id, i));
}

proof fn lemma_binding_of_last(
    exercises: Seq<RoutineExerciseView>,
    n: nat,
    e: int,
    k: (Seq<char>, nat),
)
    requires
        0 <= e < n <= exercises.len(),
        exercises[e].exercise_template_id == Some(k.0),
        k.1 < exercises[e].sets.len(),
        forall|later: int|
            #![trigger exercises[later]]
            e < later < exercises.len() ==> !(exercises[later].exercise_template_id == Some(k.0)
                && k.1 < exercises[later].sets.len()),
    ensures
        routine_binding(exercises, n, k) == Some(target_of(exercises[e].sets[k.1 as int])),
    decreases n,
{
    if n - 1 > e {
        lemma_binding_of_last(exercises, (n - 1) as nat, e, k);
    }
}

/// A key that no exercise of the routine binds falls back to the default
/// range; so does every key when there is no routine at all.
pub proof fn lemma_unmatched_is_default(r: Option<RoutineView>, id: Option<Seq<char>>, i: nat)
    requires
        r matches Some(r) ==> id matches Some(id) ==> routine_binding(
            r.exercises,
            r.exercises.len(),
            (id, i),
        ) is None,
    ensures
        lookup(targets_of(r), id, i) == default_range(),
{
    if let Some(r) = r {
        if let Some(id) = id {
            lemma_routine_targets(Map::empty(), r.exercises, r.exercises.len(), (id, i));
        }
    }
}

struct TargetEntry {
    template_id: String,
    set_index: usize,
    range: TargetRange,
}

spec fn key_of(e: TargetEntry) -> (Seq<char>, nat) {
    (e.template_id@, e.set_index as nat)
}

spec fn has_key(s: Seq<TargetEntry>, k: (Seq<char>, nat)) -> bool {
    exists|i: int| 0 <= i < s.len() && key_of(s[i]) == k
}

spec fn index_of(s: Seq<TargetEntry>, k: (Seq<char>, nat)) -> int {
    choose|i: int| 0 <= i < s.len() && key_of(s[i]) == k
}

spec fn distinct_keys(s: Seq<TargetEntry>) -> bool {
    forall|i: int, j: int| 0 <= i < j < s.len() ==> key_of(s[i]) != key_of(s[j])
}

spec fn as_map(s: Seq<TargetEntry>) -> Map<(Seq<char>, nat), TargetRange> {
    Map::new(|k: (Seq<char>, nat)| has_key(s, k), |k: (Seq<char>, nat)| s[index_of(s, k)].range)
}

proof fn lemma_entry_at(s: Seq<TargetEntry>, i: int)
    requires
        distinct_keys(s),
        0 <= i < s.len(),
    ensures
        as_map(s).contains_key(key_of(s[i])),
        as_map(s)[key_of(s[i])] == s[i].range,
{
    let k = key_of(s[i]);
    assert(has_key(s, k));
    let j = index_of(s, k);
    assert(j == i) by {
        if j < i {
            assert(key_of(s[j]) != key_of(s[i]));
        } else if i < j {
            assert(key_of(s[i]) != key_of(s[j]));
        }
    }
}

proof fn lemma_entry_added(s: Seq<TargetEntry>, e: TargetEntry)
    requires
        distinct_keys(s),
        !has_key(s, key_of(e)),
    ensures
        distinct_keys(s.push(e)),
        as_map(s.push(e)) == as_map(s).insert(key_of(e), e.range),
{
    let t = s.push(e);
    assert forall|i: int, j: int| 0 <= i < j < t.len() implies key_of(t[i]) != key_of(t[j]) by {
        if j == s.len() {
            assert(t[i] == s[i]);
            if key_of(s[i]) == key_of(e) {
                assert(has_key(s, key_of(e)));
            }
        } else {
            assert(t[i] == s[i] && t[j] == s[j]);
        }
    }
    lemma_same_bindings(s, t, s.len() as int, e);
}

proof fn lemma_entry_replaced(s: Seq<TargetEntry>, i: int, e: TargetEntry)
    requires
        distinct_keys(s),
        0 <= i < s.len(),
        key_of(s[i]) == key_of(e),
    ensures
        distinct_keys(s.update(i, e)),
        as_map(s.update(i, e)) == as_map(s).insert(key_of(e), e.range),
{
    let t = s.update(i, e);
    assert forall|a: int, b: int| 0 <= a < b < t.len() implies key_of(t[a]) != key_of(t[b]) by {
        assert(key_of(t[a]) == key_of(s[a]));
        assert(key_of(t[b]) == key_of(s[b]));
    }
    lemma_same_bindings(s, t, i, e);
}

/// `t` holds `e` at `at` and agrees with `s` everywhere else; `s` holds at
/// `at` either nothing or an entry with the key of `e`.
proof fn lemma_same_bindings(s: Seq<TargetEntry>, t: Seq<TargetEntry>, at: int, e: TargetEntry)
    requires
        distinct_keys(s),
        distinct_keys(t),
        0 <= at < t.len(),
        t[at] == e,
        s.len() == t.len() || (s.len() + 1 == t.len() && at == s.len()),
        forall|i: int| 0 <= i < s.len() && i != at ==> s[i] == t[i],
        at < s.len() ==> key_of(s[at]) == key_of(e),
    ensures
        as_map(t) == as_map(s).insert(key_of(e), e.range),
{
    let want = as_map(s).insert(key_of(e), e.range);
    assert forall|k: (Seq<char>, nat)| #[trigger]
        as_map(t).dom().contains(k) == want.dom().contains(k) && (as_map(t).dom().contains(k)
            ==> as_map(t)[k] == want[k]) by {
        if has_key(t, k) {
            let j = index_of(t, k);
            lemma_entry_at(t, j);
            if k != key_of(e) {
                assert(j != at);
                assert(s[j] == t[j]);
                lemma_entry_at(s, j);
            }
        }
        if has_key(s, k) {
            let j = index_of(s, k);
            if j == at {
                assert(key_of(t[at]) == k);
            } else {
                assert(key_of(t[j]) == k);
            }
        }
        if k == key_of(e) {
            assert(key_of(t[at]) == k);
        }
    }
    assert(as_map(t) =~= want);
}

/// A lookup table from exercise template and set position to target range.
///
/// It is an association list in which no key occurs twice; its view is the
/// map it stands for.
pub struct TargetTable {
    entries: Vec<TargetEntry>,
}

impl View for TargetTable {
    type V = Map<(Seq<char>, nat), TargetRange>;

    closed spec fn view(&self) -> Map<(Seq<char>, nat), TargetRange> {
        as_map(self.entries@)
    }
}

impl TargetTable {
    #[verifier::type_invariant]
    spec fn keys_occur_once(self) -> bool {
        distinct_keys(self.entries@)
    }

    /// An empty table.
    pub fn new() -> (t: TargetTable)
        ensures
            t@ == Map::<(Seq<char>, nat), TargetRange>::empty(),
    {
        let t = TargetTable { entries: Vec::new() };
        assert(t@ =~= Map::<(Seq<char>, nat), TargetRange>::empty());
        t
    }

    /// Where the key stands in the list, if it does.
    fn position(&self, template_id: &String, set_index: usize) -> (p: Option<usize>)
        ensures
            match p {
                Some(i) => i < self.entries@.len() && key_of(self.entries@[i as int]) == (
                    template_id@,
                    set_index as nat,
                ),
                None => !has_key(self.entries@, (template_id@, set_index as nat)),
            },
    {
        let mut i: usize = 0;
        while i < self.entries.len()
            invariant
                i <= self.entries@.len(),
                forall|j: int|
                    0 <= j < i ==> key_of(self.entries@[j]) != (template_id@, set_index as nat),
            decreases self.entries@.len() - i,
        {
            if self.entries[i].set_index == set_index && self.entries[i].template_id
                == *template_id {
                return Some(i);
            }
            i += 1;
        }
        None
    }

    /// Binds the key to `range`, replacing what it was bound to before.
    pub fn insert(&mut self, template_id: &String, set_index: usize, range: TargetRange)
        ensures
            final(self)@ == old(self)@.insert((template_id@, set_index as nat), range),
    {
        proof {
            use_type_invariant(&*self);
        }
        let found = self.position(template_id, set_index);
        let entry = TargetEntry { template_id: template_id.clone(), set_index, range };
        let mut entries: Vec<TargetEntry> = Vec::new();
        std::mem::swap(&mut entries, &mut self.entries);
        match found {
            Some(i) => {
                proof {
                    lemma_entry_replaced(entries@, i as int, entry);
                }
                entries.set(i, entry);
            },
            None => {
                proof {
                    lemma_entry_added(entries@, entry);
                }
                entries.push(entry);
            },
        }
        self.entries = entries;
    }

    /// The range bound to the key, if any.
    pub fn get(&self, template_id: &String, set_index: usize) -> (r: Option<TargetRange>)
        ensures
            r == (if self@.contains_key((template_id@, set_index as nat)) {
                Some(self@[(template_id@, set_index as nat)])
            } else {
                None
            }),
    {
        proof {
            use_type_invariant(self);
        }
        match self.position(template_id, set_index) {
            Some(i) => {
                proof {
                    lemma_entry_at(self.entries@, i as int);
                }
                Some(self.entries[i].range)
            },
            None => None,
        }
    }
}

impl TargetRange {
    /// The fallback range `(8, 10)`.
    pub fn fallback() -> (r: TargetRange)
        ensures
            r == default_range(),
    {
        TargetRange { lo: 8, hi: 10 }
    }

    /// The range around a fixed rep count.
    pub fn around(reps: i64) -> (r: TargetRange)
        ensures
            r == range_around(reps),
            r.lo >= 0,
    {
        TargetRange {
            lo: if reps <= 1 { 0 } else { reps - 1 },
            hi: if reps == i64::MAX { reps } else { reps + 1 },
        }
    }
}

/// Resolves the target range of one routine set.
pub fn target_range(set: &RoutineSet) -> (r: TargetRange)
    ensures
        r == target_of(set@),
        set@.rep_range is None ==> r.lo >= 0,
{
    match set.rep_range {
        Some(range) => {
            let lo: i64 = match range.start {
                Some(v) => v,
                None => 8,
            };
            let hi: i64 = match range.end {
                Some(v) => v,
                None => lo,
            };
            TargetRange { lo, hi }
        },
        None => match set.reps {
            Some(r) => TargetRange::around(r),
            None => TargetRange::fallback(),
        },
    }
}

/// Writes the targets of every set of `exercise` into `table`.
pub fn add_exercise_targets(table: &mut TargetTable, exercise: &RoutineExercise)
    ensures
        final(table)@ == exercise_targets(old(table)@, exercise@, exercise@.sets.len()),
{
    match &exercise.exercise_template_id {
        Some(id) => {
            let mut i: usize = 0;
            while i < exercise.sets.len()
                invariant
                    i <= exercise.sets@.len(),
                    exercise.exercise_template_id == Some(*id),
                    table@ == exercise_targets(old(table)@, exercise@, i as nat),
                decreases exercise.sets@.len() - i,
            {
                let range = target_range(&exercise.sets[i]);
                table.insert(id, i, range);
                i += 1;
            }
        },
        None => {
            assert(exercise_targets(table@, exercise@, exercise@.sets.len()) == table@);
        },
    }
}

/// Builds the lookup table of a routine. Without a routine the table is
/// empty, and every lookup falls back to the default range.
pub fn resolve_targets(routine: Option<&Routine>) -> (table: TargetTable)
    ensures
        table@ == targets_of(routine_view(routine)),
{
    let mut table = TargetTable::new();
    if let Some(r) = routine {
        let mut e: usize = 0;
        while e < r.exercises.len()
            invariant
                e <= r.exercises@.len(),
                table@ == routine_targets(Map::empty(), r@.exercises, e as nat),
            decreases r.exercises@.len() - e,
        {
            add_exercise_targets(&mut table, &r.exercises[e]);
            e += 1;
        }
    }
    table
}

/// The range that set `set_index` of a workout exercise with the given
/// template is measured against.
pub fn target_for(table: &TargetTable, template_id: &Option<String>, set_index: usize) -> (r:
    TargetRange)
    ensures
        r == lookup(table@, text_of(*template_id), set_index as nat),
{
    match template_id {
        Some(id) => match table.get(id, set_index) {
            Some(range) => range,
            None => TargetRange::fallback(),
        },
        None => TargetRange::fallback(),
    }
}

} // verus!
