//! The roster: an ordered sequence of student records with an id allocator.

use vstd::prelude::*;
use rand::rngs::StdRng;
use crate::student::{blank_student, gender_of_token, new_student, Gender, Score, Student, StudentId};
use crate::text::{is_blank, normalize_text};

verus! {

/// The abstract roster: records in display order, and the next id to hand out.
pub struct RosterView {
    pub students: Seq<Student>,
    pub next_id: nat,
}

impl RosterView {
    /// No two records share an id.
    pub open spec fn ids_unique(self) -> bool {
        forall|i: int, j: int|
            0 <= i < self.students.len() && 0 <= j < self.students.len() && i != j
                ==> #[trigger] self.students[i].id != #[trigger] self.students[j].id
    }

    /// Every id in use was handed out before the allocator's current value.
    pub open spec fn ids_below_next(self) -> bool {
        forall|i: int| 0 <= i < self.students.len() ==> #[trigger] self.students[i].id < self.next_id
    }

    /// The roster's invariant: ids are unique and below the allocator, which
    /// itself fits in a `StudentId`.
    pub open spec fn wf(self) -> bool {
        &&& self.ids_unique()
        &&& self.ids_below_next()
        &&& self.next_id <= u32::MAX
    }

    pub open spec fn has_id(self, id: StudentId) -> bool {
        exists|i: int| 0 <= i < self.students.len() && #[trigger] self.students[i].id == id
    }

    /// Whether the allocator has an id left to hand out.
    pub open spec fn can_add(self) -> bool {
        self.next_id < u32::MAX
    }

    /// The roster after adding a blank record under the next id.
    pub open spec fn added(self) -> RosterView {
        RosterView {
            students: self.students.push(blank_student(self.next_id as StudentId)),
            next_id: self.next_id + 1,
        }
    }

    /// The roster without the record whose id is `id`.
    pub open spec fn removed(self, id: StudentId) -> RosterView {
        RosterView { students: self.students.filter(|s: Student| s.id != id), next_id: self.next_id }
    }

    /// The roster with `f` applied to the record whose id is `id`.
    pub open spec fn edited(self, id: StudentId, f: spec_fn(Student) -> Student) -> RosterView {
        RosterView {
            students: self.students.map_values(|s: Student| if s.id == id { f(s) } else { s }),
            next_id: self.next_id,
        }
    }
}

/// The edit that sets a record's name.
pub open spec fn with_name(name: Option<String>) -> spec_fn(Student) -> Student {
    |s: Student| Student { name: name, ..s }
}

/// The edit that sets a record's note.
pub open spec fn with_note(note: Option<String>) -> spec_fn(Student) -> Student {
    |s: Student| Student { note: note, ..s }
}

/// The edit that sets a record's gender.
pub open spec fn with_gender(gender: Gender) -> spec_fn(Student) -> Student {
    |s: Student| Student { gender: gender, ..s }
}

/// The edit that sets a record's score.
pub open spec fn with_score(score: Score) -> spec_fn(Student) -> Student {
    |s: Student| Student { score: score, ..s }
}

/// A filter that every element passes leaves the sequence as it is.
proof fn lemma_filter_keeps_all(s: Seq<Student>, p: spec_fn(Student) -> bool)
    requires
        forall|i: int| 0 <= i < s.len() ==> p(#[trigger] s[i]),
    ensures
        s.filter(p) == s,
    decreases s.len(),
{
    reveal(Seq::filter);
    if s.len() > 0 {
        lemma_filter_keeps_all(s.drop_last(), p);
        assert(s.drop_last().push(s.last()) =~= s);
    }
}

/// Removing the one record with a given id is filtering that id out.
proof fn lemma_remove_is_filter(v: RosterView, i: int, id: StudentId)
    requires
        v.wf(),
        0 <= i < v.students.len(),
        v.students[i].id == id,
    ensures
        v.removed(id).students == v.students.remove(i),
{
    let p = |s: Student| s.id != id;
    let s = v.students;
    let pre = s.subrange(0, i);
    let mid = seq![s[i]];
    let post = s.subrange(i + 1, s.len() as int);
    assert(s =~= pre + mid + post);
    Seq::filter_distributes_over_add(pre + mid, post, p);
    Seq::filter_distributes_over_add(pre, mid, p);
    assert forall|k: int| 0 <= k < pre.len() implies p(#[trigger] pre[k]) by {
        assert(pre[k] == s[k]);
    }
    lemma_filter_keeps_all(pre, p);
    assert forall|k: int| 0 <= k < post.len() implies p(#[trigger] post[k]) by {
        assert(post[k] == s[i + 1 + k]);
    }
    lemma_filter_keeps_all(post, p);
    reveal(Seq::filter);
    assert(mid.drop_last() =~= Seq::<Student>::empty());
    assert(Seq::<Student>::empty().filter(p) =~= Seq::<Student>::empty());
    assert(!p(mid.last()));
    assert(mid.filter(p) =~= Seq::<Student>::empty());
    assert(s.remove(i) =~= pre + post);
}

/// Editing the record at `i` through its id changes that record only.
proof fn lemma_edit_at(v: RosterView, i: int, id: StudentId, f: spec_fn(Student) -> Student)
    requires
        v.wf(),
        0 <= i < v.students.len(),
        v.students[i].id == id,
    ensures
        v.edited(id, f).students =~= v.students.update(i, f(v.students[i])),
{
    assert forall|k: int| 0 <= k < v.students.len() && k != i implies v.students[k].id != id by {
        assert(v.students[k].id != v.students[i].id);
    }
}

/// Editing an id that no record holds changes nothing.
proof fn lemma_edit_absent(v: RosterView, id: StudentId, f: spec_fn(Student) -> Student)
    requires
        !v.has_id(id),
    ensures
        v.edited(id, f) == v,
{
    assert forall|k: int| 0 <= k < v.students.len() implies v.students[k].id != id by {
        if v.students[k].id == id {
            assert(v.has_id(id));
        }
    }
    assert(v.edited(id, f).students =~= v.students);
}

/// An edit that keeps each record's id keeps the roster well formed.
proof fn lemma_edit_wf(v: RosterView, id: StudentId, f: spec_fn(Student) -> Student)
    requires
        v.wf(),
        forall|s: Student| (#[trigger] f(s)).id == s.id,
    ensures
        v.edited(id, f).wf(),
{
    let w = v.edited(id, f);
    assert forall|k: int| 0 <= k < w.students.len() implies #[trigger] w.students[k].id
        == v.students[k].id by {
        if v.students[k].id == id {
            assert(f(v.students[k]).id == v.students[k].id);
        }
    }
    assert forall|a: int, b: int|
        0 <= a < w.students.len() && 0 <= b < w.students.len() && a != b
        implies #[trigger] w.students[a].id != #[trigger] w.students[b].id by {
        assert(v.students[a].id != v.students[b].id);
    }
}

/// Adding under the next id keeps the roster well formed.
pub proof fn lemma_added_wf(v: RosterView)
    requires
        v.wf(),
        v.can_add(),
    ensures
        v.added().wf(),
{
    let w = v.added();
    assert forall|a: int| 0 <= a < w.students.len() implies #[trigger] w.students[a].id
        < w.next_id by {
        if a < v.students.len() {
            assert(w.students[a] == v.students[a]);
        }
    }
    assert forall|a: int, b: int|
        0 <= a < w.students.len() && 0 <= b < w.students.len() && a != b
        implies #[trigger] w.students[a].id != #[trigger] w.students[b].id by {
        if a < v.students.len() && b < v.students.len() {
            assert(v.students[a].id != v.students[b].id);
        } else if a < v.students.len() {
            assert(v.students[a].id < v.next_id);
        } else {
            assert(v.students[b].id < v.next_id);
        }
    }
}

/// Removing an id keeps the roster well formed; it takes out the one record
/// that holds the id, and changes nothing when none does.
pub proof fn lemma_removed_wf(v: RosterView, id: StudentId)
    requires
        v.wf(),
    ensures
        v.removed(id).wf(),
        !v.has_id(id) ==> v.removed(id) == v,
        forall|i: int| 0 <= i < v.students.len() && #[trigger] v.students[i].id == id
            ==> v.removed(id).students == v.students.remove(i),
{
    assert forall|i: int| 0 <= i < v.students.len() && #[trigger] v.students[i].id == id
        implies v.removed(id).students == v.students.remove(i) by {
        lemma_remove_is_filter(v, i, id);
    }
    if v.has_id(id) {
        let i = choose|i: int| 0 <= i < v.students.len() && #[trigger] v.students[i].id == id;
        lemma_remove_is_filter(v, i, id);
        let w = v.removed(id);
        assert forall|a: int, b: int|
            0 <= a < w.students.len() && 0 <= b < w.students.len() && a != b
            implies #[trigger] w.students[a].id != #[trigger] w.students[b].id by {
            let oa = if a < i { a } else { a + 1 };
            let ob = if b < i { b } else { b + 1 };
            assert(v.students[oa].id != v.students[ob].id);
        }
        assert forall|a: int| 0 <= a < w.students.len()
            implies #[trigger] w.students[a].id < w.next_id by {
            let oa = if a < i { a } else { a + 1 };
            assert(v.students[oa].id < v.next_id);
        }
    } else {
        let p = |s: Student| s.id != id;
        assert forall|k: int| 0 <= k < v.students.len()
            implies p(#[trigger] v.students[k]) by {
            if v.students[k].id == id {
                assert(v.has_id(id));
            }
        }
        lemma_filter_keeps_all(v.students, p);
    }
}

/// The roster of a session. Its view is always well formed (`RosterView::wf`).
pub struct Roster {
    students: Vec<Student>,
    next_id: StudentId,
}

impl View for Roster {
    type V = RosterView;

    closed spec fn view(&self) -> RosterView {
        RosterView { students: self.students@, next_id: self.next_id as nat }
    }
}

impl Roster {
    #[verifier::type_invariant]
    spec fn inv(&self) -> bool {
        self@.wf()
    }

    /// An empty roster whose first id is zero.
    pub fn new() -> (r: Roster)
        ensures
            r@.wf(),
            r@.students.len() == 0,
            r@.next_id == 0,
    {
        Roster { students: Vec::new(), next_id: 0 }
    }

    /// A roster of one record per draw, with ids `0, 1, ...` in order, no
    /// name and the drawn gender and score; the allocator continues after
    /// the last seeded id.
    pub fn seed(draws: &Vec<(Gender, Score)>) -> (r: Roster)
        requires
            draws@.len() <= u32::MAX,
        ensures
            r@.wf(),
            r@.next_id == draws@.len(),
            r@.students.len() == draws@.len(),
            forall|i: int| 0 <= i < draws@.len() ==> #[trigger] r@.students[i]
                == new_student(i as StudentId, None, draws@[i].0, draws@[i].1),
    {
        let mut students: Vec<Student> = Vec::new();
        let mut k: usize = 0;
        while k < draws.len()
            invariant
                k <= draws@.len() <= u32::MAX,
                students@.len() == k,
                forall|i: int| 0 <= i < k ==> #[trigger] students@[i]
                    == new_student(i as StudentId, None, draws@[i].0, draws@[i].1),
            decreases draws@.len() - k,
        {
            let (gender, score) = draws[k];
            students.push(Student::new(k as StudentId, None, gender, score));
            k += 1;
        }
        Roster { students, next_id: k as StudentId }
    }

    /// A roster of one record per score, with ids `0, 1, ...` in order, no
    /// name and a gender drawn from `rng`; the allocator continues after the
    /// last seeded id.
    pub fn seed_random(rng: &mut StdRng, scores: &Vec<Score>) -> (r: Roster)
        requires
            scores@.len() <= u32::MAX,
        ensures
            r@.wf(),
            r@.next_id == scores@.len(),
            r@.students.len() == scores@.len(),
            forall|i: int| 0 <= i < scores@.len() ==> #[trigger] r@.students[i]
                == new_student(i as StudentId, None, r@.students[i].gender, scores@[i]),
    {
        let mut draws: Vec<(Gender, Score)> = Vec::new();
        let mut k: usize = 0;
        while k < scores.len()
            invariant
                k <= scores@.len(),
                draws@.len() == k,
                forall|i: int| 0 <= i < k ==> (#[trigger] draws@[i]).1 == scores@[i],
            decreases scores@.len() - k,
        {
            draws.push((Gender::random(rng), scores[k]));
            k += 1;
        }
        Roster::seed(&draws)
    }

    /// The records, in display order.
    pub fn students(&self) -> (r: &Vec<Student>)
        ensures
            r@ == self@.students,
    {
        &self.students
    }

    /// The id that the next added record will get.
    pub fn next_id(&self) -> (r: StudentId)
        ensures
            r == self@.next_id,
    {
        self.next_id
    }

    /// The number of records.
    pub fn len(&self) -> (r: usize)
        ensures
            r == self@.students.len(),
    {
        self.students.len()
    }

    /// The position of the record with the given id, if there is one.
    pub fn find_index(&self, id: StudentId) -> (r: Option<usize>)
        ensures
            r matches Some(i) ==> i < self@.students.len() && self@.students[i as int].id == id,
            r is None <==> !self@.has_id(id),
    {
        let mut k: usize = 0;
        while k < self.students.len()
            invariant
                k <= self.students@.len(),
                forall|j: int| 0 <= j < k ==> (#[trigger] self.students@[j]).id != id,
            decreases self.students@.len() - k,
        {
            if self.students[k].id == id {
                return Some(k);
            }
            k += 1;
        }
        None
    }

    /// Appends a blank record under the next id and advances the allocator;
    /// returns the id. When every id has been handed out, nothing changes and
    /// the result is `None`.
    pub fn add(&mut self) -> (r: Option<StudentId>)
        ensures
            final(self)@.wf(),
            old(self)@.can_add() ==> r == Some(old(self)@.next_id as StudentId)
                && final(self)@ == old(self)@.added(),
            !old(self)@.can_add() ==> r is None && final(self)@ == old(self)@,
    {
        proof {
            use_type_invariant(&*self);
        }
        if self.next_id == u32::MAX {
            return None;
        }
        let id = self.next_id;
        let mut students: Vec<Student> = Vec::new();
        std::mem::swap(&mut students, &mut self.students);
        students.push(Student::new_dummy(id));
        proof {
            lemma_added_wf(old(self)@);
            assert(students@ =~= old(self)@.added().students);
        }
        *self = Roster { students, next_id: id + 1 };
        Some(id)
    }

    /// Deletes the record with the given id; nothing changes when there is none.
    pub fn remove(&mut self, id: StudentId)
        ensures
            final(self)@.wf(),
            final(self)@ == old(self)@.removed(id),
            !old(self)@.has_id(id) ==> final(self)@ == old(self)@,
            forall|i: int|
                0 <= i < old(self)@.students.len() && #[trigger] old(self)@.students[i].id == id
                    ==> final(self)@.students == old(self)@.students.remove(i),
    {
        proof {
            use_type_invariant(&*self);
            lemma_removed_wf(self@, id);
        }
        match self.find_index(id) {
            Some(i) => {
                proof {
                    lemma_remove_is_filter(self@, i as int, id);
                }
                let mut students: Vec<Student> = Vec::new();
                std::mem::swap(&mut students, &mut self.students);
                students.remove(i);
                self.students = students;
            },
            None => {},
        }
    }

    /// Sets the name of the record with the given id; nothing changes when
    /// there is none.
    pub fn set_name(&mut self, id: StudentId, name: Option<String>)
        ensures
            final(self)@.wf(),
            final(self)@ == old(self)@.edited(id, with_name(name)),
    {
        proof {
            use_type_invariant(&*self);
            lemma_edit_wf(self@, id, with_name(name));
        }
        match self.find_index(id) {
            Some(i) => {
                proof {
                    lemma_edit_at(self@, i as int, id, with_name(name));
                }
                let mut students: Vec<Student> = Vec::new();
                std::mem::swap(&mut students, &mut self.students);
                students[i].name = name;
                proof {
                    assert(students@ =~= old(self)@.edited(id, with_name(name)).students);
                }
                self.students = students;
            },
            None => {
                proof {
                    lemma_edit_absent(self@, id, with_name(name));
                }
            },
        }
    }

    /// Sets the note of the record with the given id; nothing changes when
    /// there is none.
    pub fn set_note(&mut self, id: StudentId, note: Option<String>)
        ensures
            final(self)@.wf(),
            final(self)@ == old(self)@.edited(id, with_note(note)),
    {
        proof {
            use_type_invariant(&*self);
            lemma_edit_wf(self@, id, with_note(note));
        }
        match self.find_index(id) {
            Some(i) => {
                proof {
                    lemma_edit_at(self@, i as int, id, with_note(note));
                }
                let mut students: Vec<Student> = Vec::new();
                std::mem::swap(&mut students, &mut self.students);
                students[i].note = note;
                proof {
                    assert(students@ =~= old(self)@.edited(id, with_note(note)).students);
                }
                self.students = students;
            },
            None => {
                proof {
                    lemma_edit_absent(self@, id, with_note(note));
                }
            },
        }
    }

    /// Sets the gender of the record with the given id; nothing changes when
    /// there is none.
    pub fn set_gender(&mut self, id: StudentId, gender: Gender)
        ensures
            final(self)@.wf(),
            final(self)@ == old(self)@.edited(id, with_gender(gender)),
    {
        proof {
            use_type_invariant(&*self);
            lemma_edit_wf(self@, id, with_gender(gender));
        }
        match self.find_index(id) {
            Some(i) => {
                proof {
                    lemma_edit_at(self@, i as int, id, with_gender(gender));
                }
                let mut students: Vec<Student> = Vec::new();
                std::mem::swap(&mut students, &mut self.students);
                students[i].gender = gender;
                proof {
                    assert(students@ =~= old(self)@.edited(id, with_gender(gender)).students);
                }
                self.students = students;
            },
            None => {
                proof {
                    lemma_edit_absent(self@, id, with_gender(gender));
                }
            },
        }
    }

    /// Sets the score of the record with the given id; nothing changes when
    /// there is none.
    pub fn set_score(&mut self, id: StudentId, score: Score)
        ensures
            final(self)@.wf(),
            final(self)@ == old(self)@.edited(id, with_score(score)),
    {
        proof {
            use_type_invariant(&*self);
            lemma_edit_wf(self@, id, with_score(score));
        }
        match self.find_index(id) {
            Some(i) => {
                proof {
                    lemma_edit_at(self@, i as int, id, with_score(score));
                }
                let mut students: Vec<Student> = Vec::new();
                std::mem::swap(&mut students, &mut self.students);
                students[i].score = score;
                proof {
                    assert(students@ =~= old(self)@.edited(id, with_score(score)).students);
                }
                self.students = students;
            },
            None => {
                proof {
                    lemma_edit_absent(self@, id, with_score(score));
                }
            },
        }
    }

    /// Edits the name from form text: a blank text clears it, any other text
    /// is stored as entered.
    pub fn update_name(&mut self, id: StudentId, value: String)
        ensures
            final(self)@.wf(),
            final(self)@ == old(self)@.edited(
                id,
                with_name(if is_blank(value@) { None } else { Some(value) }),
            ),
    {
        let name = normalize_text(value);
        self.set_name(id, name);
    }

    /// Edits the note from form text: a blank text clears it, any other text
    /// is stored as entered.
    pub fn update_note(&mut self, id: StudentId, value: String)
        ensures
            final(self)@.wf(),
            final(self)@ == old(self)@.edited(
                id,
                with_note(if is_blank(value@) { None } else { Some(value) }),
            ),
    {
        let note = normalize_text(value);
        self.set_note(id, note);
    }

    /// Edits the gender from a form token: `female` gives `Female`, anything
    /// else `Male`.
    pub fn update_gender(&mut self, id: StudentId, value: &str)
        ensures
            final(self)@.wf(),
            final(self)@ == old(self)@.edited(id, with_gender(gender_of_token(value@))),
    {
        let gender = Gender::from_str(value);
        self.set_gender(id, gender);
    }

    /// Edits the score from the outcome of reading the form text as a number:
    /// a score that was read replaces the old one, and text that could not be
    /// read (`None`) leaves the roster as it is. Returns whether the text was
    /// read, so that a caller may show a failed edit.
    pub fn update_score(&mut self, id: StudentId, parsed: Option<Score>) -> (r: bool)
        ensures
            final(self)@.wf(),
            r == parsed is Some,
            parsed matches Some(score) ==> final(self)@ == old(self)@.edited(id, with_score(score)),
            parsed is None ==> final(self)@ == old(self)@,
    {
        proof {
            use_type_invariant(&*self);
        }
        match parsed {
            Some(score) => {
                self.set_score(id, score);
                true
            },
            None => false,
        }
    }
}

/// A roster edit that changes which records exist.
pub enum RosterOp {
    Add,
    Remove(StudentId),
}

/// The roster after one operation, as `Roster::add` and `Roster::remove` make it.
pub open spec fn apply_op(v: RosterView, op: RosterOp) -> RosterView {
    match op {
        RosterOp::Add => if v.can_add() {
            v.added()
        } else {
            v
        },
        RosterOp::Remove(id) => v.removed(id),
    }
}

/// The roster after a sequence of operations, applied in order.
pub open spec fn apply_ops(v: RosterView, ops: Seq<RosterOp>) -> RosterView
    decreases ops.len(),
{
    if ops.len() == 0 {
        v
    } else {
        apply_op(apply_ops(v, ops.drop_last()), ops.last())
    }
}

/// The ids that the adds among `ops` hand out, in order.
pub open spec fn allocated_ids(v: RosterView, ops: Seq<RosterOp>) -> Seq<nat>
    decreases ops.len(),
{
    if ops.len() == 0 {
        Seq::empty()
    } else {
        let before = apply_ops(v, ops.drop_last());
        let earlier = allocated_ids(v, ops.drop_last());
        if ops.last() is Add && before.can_add() {
            earlier.push(before.next_id)
        } else {
            earlier
        }
    }
}

/// Whatever adds and removes are applied to a well-formed roster, no two of
/// its records ever share an id.
pub proof fn lemma_ids_stay_unique(v: RosterView, ops: Seq<RosterOp>)
    requires
        v.wf(),
    ensures
        apply_ops(v, ops).wf(),
        apply_ops(v, ops).ids_unique(),
    decreases ops.len(),
{
    if ops.len() > 0 {
        lemma_ids_stay_unique(v, ops.drop_last());
        let before = apply_ops(v, ops.drop_last());
        match ops.last() {
            RosterOp::Add => if before.can_add() {
                lemma_added_wf(before);
            },
            RosterOp::Remove(id) => {
                lemma_removed_wf(before, id);
            },
        }
    }
}

/// Each add hands out an id strictly greater than every id handed out
/// before it, and than every id the roster held at the start.
pub proof fn lemma_allocation_increases(v: RosterView, ops: Seq<RosterOp>)
    requires
        v.wf(),
    ensures
        forall|i: int, j: int|
            0 <= i < j < allocated_ids(v, ops).len() ==> allocated_ids(v, ops)[i]
                < allocated_ids(v, ops)[j],
        forall|i: int, k: int|
            0 <= i < allocated_ids(v, ops).len() && 0 <= k < v.students.len()
                ==> v.students[k].id < allocated_ids(v, ops)[i],
        forall|i: int|
            0 <= i < allocated_ids(v, ops).len() ==> allocated_ids(v, ops)[i] < apply_ops(
                v,
                ops,
            ).next_id,
        v.next_id <= apply_ops(v, ops).next_id,
    decreases ops.len(),
{
    if ops.len() > 0 {
        let rest = ops.drop_last();
        lemma_allocation_increases(v, rest);
        lemma_ids_stay_unique(v, rest);
        let before = apply_ops(v, rest);
        let earlier = allocated_ids(v, rest);
        let all = allocated_ids(v, ops);
        if ops.last() is Add && before.can_add() {
            assert(all == earlier.push(before.next_id));
            assert forall|i: int, k: int|
                0 <= i < all.len() && 0 <= k < v.students.len()
                implies v.students[k].id < all[i] by {
                assert(v.students[k].id < v.next_id);
                if i < earlier.len() {
                    assert(all[i] == earlier[i]);
                }
            }
        }
    }
}

} // verus!
