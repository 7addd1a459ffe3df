//! The application state that every page shares: the roster, the
//! class-assignment settings and a click counter.

use vstd::prelude::*;
use crate::roster::Roster;
use crate::text::{is_checked, parse_u8, u8_of_text};

verus! {

/// The fewest classes that students can be split into.
pub const MIN_CLASSES: u8 = 3;

/// The most classes that students can be split into.
pub const MAX_CLASSES: u8 = 30;

/// The number of classes chosen before any edit.
pub const DEFAULT_CLASSES: u8 = 10;

/// A desired number of classes, always within `MIN_CLASSES..=MAX_CLASSES`.
#[derive(Debug, Clone, Copy, PartialEq, Eq)]
pub struct ClassCount {
    value: u8,
}

impl View for ClassCount {
    type V = u8;

    closed spec fn view(&self) -> u8 {
        self.value
    }
}

pub open spec fn in_class_range(n: int) -> bool {
    MIN_CLASSES <= n <= MAX_CLASSES
}

impl ClassCount {
    #[verifier::type_invariant]
    spec fn inv(&self) -> bool {
        in_class_range(self.value as int)
    }

    /// The class count `n`, when it lies in the allowed range.
    pub fn new(n: u8) -> (r: Option<ClassCount>)
        ensures
            in_class_range(n as int) <==> r is Some,
            r matches Some(c) ==> c@ == n,
    {
        if MIN_CLASSES <= n && n <= MAX_CLASSES {
            Some(ClassCount { value: n })
        } else {
            None
        }
    }

    pub fn default_count() -> (r: ClassCount)
        ensures
            r@ == DEFAULT_CLASSES,
    {
        ClassCount { value: DEFAULT_CLASSES }
    }

    pub fn get(&self) -> (r: u8)
        ensures
            r == self@,
            in_class_range(r as int),
    {
        proof {
            use_type_invariant(self);
        }
        self.value
    }
}

pub struct AppState {
    /// A click counter shown on the landing page.
    pub count: i32,
    pub number_of_class: ClassCount,
    pub roster: Roster,
    /// Whether the assignment should balance average scores.
    pub opt_score: bool,
    /// Whether the assignment should balance genders.
    pub opt_gender: bool,
}

impl AppState {
    /// The state at the start of a session around a seeded roster: counter
    /// zero, the default class count and both balancing options on.
    pub fn new(roster: Roster) -> (r: AppState)
        ensures
            r.count == 0,
            r.number_of_class@ == DEFAULT_CLASSES,
            r.roster == roster,
            r.opt_score,
            r.opt_gender,
    {
        AppState {
            count: 0,
            number_of_class: ClassCount::default_count(),
            roster,
            opt_score: true,
            opt_gender: true,
        }
    }

    /// Counts one click, wrapping around past `i32::MAX`.
    pub fn increment_count(&mut self)
        ensures
            final(self).count == (if old(self).count == i32::MAX {
                i32::MIN
            } else {
                (old(self).count + 1) as i32
            }),
            final(self).number_of_class == old(self).number_of_class,
            final(self).roster == old(self).roster,
            final(self).opt_score == old(self).opt_score,
            final(self).opt_gender == old(self).opt_gender,
    {
        self.count = self.count.wrapping_add(1);
    }

    /// Sets the class count from the slider's text: a number within the
    /// allowed range replaces it, anything else leaves it. Returns whether
    /// it was replaced.
    pub fn update_class_count(&mut self, value: &str) -> (r: bool)
        ensures
            r == (u8_of_text(value@) matches Some(n) && in_class_range(n as int)),
            r ==> final(self).number_of_class@ == u8_of_text(value@)->Some_0,
            !r ==> final(self).number_of_class == old(self).number_of_class,
            final(self).count == old(self).count,
            final(self).roster == old(self).roster,
            final(self).opt_score == old(self).opt_score,
            final(self).opt_gender == old(self).opt_gender,
    {
        match parse_u8(value) {
            Some(n) => match ClassCount::new(n) {
                Some(c) => {
                    self.number_of_class = c;
                    true
                },
                None => false,
            },
            None => false,
        }
    }

    /// Sets the score-balancing option from the checkbox's form value.
    pub fn update_opt_score(&mut self, value: &str)
        ensures
            final(self).opt_score == (value@ == "true"@),
            final(self).count == old(self).count,
            final(self).number_of_class == old(self).number_of_class,
            final(self).roster == old(self).roster,
            final(self).opt_gender == old(self).opt_gender,
    {
        self.opt_score = is_checked(value);
    }

    /// Sets the gender-balancing option from the checkbox's form value.
    pub fn update_opt_gender(&mut self, value: &str)
        ensures
            final(self).opt_gender == (value@ == "true"@),
            final(self).count == old(self).count,
            final(self).number_of_class == old(self).number_of_class,
            final(self).roster == old(self).roster,
            final(self).opt_score == old(self).opt_score,
    {
        self.opt_gender = is_checked(value);
    }
}

} // verus!
