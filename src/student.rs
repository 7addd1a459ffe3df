//! A single student record and its field types.

use vstd::prelude::*;
use rand::rngs::StdRng;
use rand::Rng;
use crate::text::same_text;

verus! {

/// Identifier of a student, unique within a roster.
pub type StudentId = u32;

#[verifier::external_type_specification]
#[verifier::external_body]
pub struct ExStdRng(StdRng);

/// Relies on `rand::Rng::random::<bool>` on `StdRng`: draws one uniform
/// boolean from the generator. Nothing is promised of the value.
#[verifier::external_body]
fn draw_bool(rng: &mut StdRng) -> bool {
    rng.random::<bool>()
}

/// A student's gender as the roster records it.
#[derive(Debug, Clone, Copy, PartialEq, Eq, Structural)]
pub enum Gender {
    Male,
    Female,
}

/// The text that stands for each gender in form inputs.
pub open spec fn gender_token(g: Gender) -> Seq<char> {
    match g {
        Gender::Male => "male"@,
        Gender::Female => "female"@,
    }
}

/// Reading a form token: only `female` means `Female`; anything else,
/// unrecognised text included, falls back to `Male`.
pub open spec fn gender_of_token(s: Seq<char>) -> Gender {
    if s == "female"@ {
        Gender::Female
    } else {
        Gender::Male
    }
}

impl Gender {
    /// The form-input token for this gender.
    pub fn to_value(&self) -> (r: &'static str)
        ensures
            r@ == gender_token(*self),
    {
        proof {
            reveal_strlit("male");
            reveal_strlit("female");
        }
        match self {
            Gender::Male => "male",
            Gender::Female => "female",
        }
    }

    /// Total conversion from a form token, defaulting to `Male`.
    pub fn from_str(s: &str) -> (r: Gender)
        ensures
            r == gender_of_token(s@),
    {
        proof {
            reveal_strlit("female");
        }
        if same_text(s, "female") {
            Gender::Female
        } else {
            Gender::Male
        }
    }

    /// A gender drawn uniformly at random from `rng`.
    pub fn random(rng: &mut StdRng) -> (r: Gender) {
        if draw_bool(rng) {
            Gender::Male
        } else {
            Gender::Female
        }
    }
}

/// A score, held as the IEEE-754 single-precision bit pattern of its value,
/// so that it is stored and compared exactly.
#[derive(Debug, Clone, Copy, PartialEq, Eq, Structural)]
pub struct Score {
    pub bits: u32,
}

impl Score {
    /// The score with the given single-precision bit pattern.
    pub fn from_bits(bits: u32) -> (r: Score)
        ensures
            r.bits == bits,
    {
        Score { bits }
    }

    /// The single-precision bit pattern of this score.
    pub fn to_bits(&self) -> (r: u32)
        ensures
            r == self.bits,
    {
        self.bits
    }

    /// The score zero (positive zero, whose bit pattern is all zeros).
    pub fn zero() -> (r: Score)
        ensures
            r == Score::spec_zero(),
    {
        Score { bits: 0 }
    }

    pub open spec fn spec_zero() -> Score {
        Score { bits: 0 }
    }
}

/// One student. Form edits store a blank name or note as `None` (see
/// `Roster::update_name`).
#[derive(Debug, Clone)]
pub struct Student {
    pub id: StudentId,
    pub name: Option<String>,
    pub note: Option<String>,
    pub gender: Gender,
    pub score: Score,
    /// Reserved to tell placeholder records apart; no logic reads it yet.
    pub valid: bool,
}

/// The record that `Student::new` builds.
pub open spec fn new_student(id: StudentId, name: Option<String>, gender: Gender, score: Score) -> Student {
    Student { id, name, note: None, gender, score, valid: false }
}

/// The record of a freshly added student: no name, no note, `Male`, score zero.
pub open spec fn blank_student(id: StudentId) -> Student {
    new_student(id, None, Gender::Male, Score::spec_zero())
}

impl Student {
    pub fn new(id: StudentId, name: Option<String>, gender: Gender, score: Score) -> (r: Student)
        ensures
            r == new_student(id, name, gender, score),
    {
        Student { id, name, gender, note: None, score, valid: false }
    }

    pub fn new_dummy(id: StudentId) -> (r: Student)
        ensures
            r == blank_student(id),
    {
        Student { id, name: None, gender: Gender::Male, note: None, score: Score::zero(), valid: false }
    }
}

} // verus!
