//! A small virtual-pet simulation.
//!
//! The pet is a single state object: a name, three small signed counters
//! (`age`, `hunger`, `fitness`) and an ordered list of adopted child names.
//! Actions mutate the counters under clamp rules, and the alive/dead status
//! is always recomputed from the current fields, never stored.

use vstd::prelude::*;

pub mod decimal;
pub mod laws;
pub mod shell;

verus! {

use crate::decimal::i8_dec_str;
use crate::decimal::spec_dec;

/// The text that `Pet::status` produces: the three counters in decimal,
/// labelled and separated by single spaces.
pub open spec fn status_text(m: PetModel) -> Seq<char> {
    "Age: "@ + spec_dec(m.age) + " Hunger: "@ + spec_dec(m.hunger) + " Fitness: "@ + spec_dec(
        m.fitness,
    )
}

/// The pet's state. Fields are public: the shell renders them directly and
/// edits the name in place.
#[derive(Debug, PartialEq, Eq)]
pub struct Pet {
    pub name: String,
    pub age: i8,
    pub hunger: i8,
    pub fitness: i8,
    pub children: Vec<String>,
}

/// Mathematical model of a pet: unbounded integers for the counters and
/// sequences of characters for the text fields.
#[verifier::ext_equal]
pub ghost struct PetModel {
    pub name: Seq<char>,
    pub age: int,
    pub hunger: int,
    pub fitness: int,
    pub children: Seq<Seq<char>>,
}

impl View for Pet {
    type V = PetModel;

    open spec fn view(&self) -> PetModel {
        PetModel {
            name: self.name@,
            age: self.age as int,
            hunger: self.hunger as int,
            fitness: self.fitness as int,
            children: self.children@.map_values(|c: String| c@),
        }
    }
}

/// The state a freshly created pet starts in: placeholder name, zero age and
/// hunger, full fitness, no children.
pub open spec fn default_model() -> PetModel {
    PetModel { name: "Rusty"@, age: 0, hunger: 0, fitness: 10, children: Seq::empty() }
}

impl PetModel {
    /// The sole survival predicate: all three clauses must hold.
    pub open spec fn alive(self) -> bool {
        self.hunger < 10 && self.fitness >= 0 && self.age < 30
    }

    /// Clamp invariant that every state reachable from the default satisfies:
    /// hunger never goes negative and fitness never exceeds 10.
    pub open spec fn inv(self) -> bool {
        self.hunger >= 0 && self.fitness <= 10
    }

    /// Feeding lowers hunger by 3, floored at 0.
    pub open spec fn feed_step(self) -> PetModel {
        PetModel { hunger: if self.hunger < 3 { 0 } else { self.hunger - 3 }, ..self }
    }

    /// Walking raises fitness by 3, capped at 10.
    pub open spec fn walk_step(self) -> PetModel {
        PetModel { fitness: if self.fitness + 3 > 10 { 10 } else { self.fitness + 3 }, ..self }
    }

    /// Aging raises age by 1 and hunger by 3 and lowers fitness by 3, unclamped.
    pub open spec fn grow_up_step(self) -> PetModel {
        PetModel { age: self.age + 1, hunger: self.hunger + 3, fitness: self.fitness - 3, ..self }
    }

    /// Adoption appends one child name, leaving everything else unchanged.
    pub open spec fn adopt_step(self, child: Seq<char>) -> PetModel {
        PetModel { children: self.children.push(child), ..self }
    }

    /// The generational transition: the pet is replaced by a default one that
    /// keeps the old children and gains the old pet's name as one more child.
    pub open spec fn have_child_step(self) -> PetModel {
        PetModel { children: self.children.push(self.name), ..default_model() }
    }
}

impl Default for Pet {
    /// A fresh pet: named "Rusty", age 0, hunger 0, fitness 10, no children.
    fn default() -> (r: Pet)
        ensures
            r@ == default_model(),
    {
        let r = Pet {
            name: String::from_str("Rusty"),
            age: 0,
            hunger: 0,
            fitness: 10,
            children: Vec::new(),
        };
        proof {
            assert(r@ =~= default_model());
        }
        r
    }
}

impl Pet {
    /// Whether the pet is currently alive, recomputed from the fields.
    pub fn is_alive(&self) -> (r: bool)
        ensures
            r == self@.alive(),
    {
        self.hunger < 10 && self.fitness >= 0 && self.age < 30
    }

    /// A human-readable one-line summary of the three counters.
    pub fn status(&self) -> (r: String)
        ensures
            r@ == status_text(self@),
    {
        let mut s = String::from_str("Age: ");
        let age = i8_dec_str(self.age);
        s.append(age.as_str());
        s.append(" Hunger: ");
        let hunger = i8_dec_str(self.hunger);
        s.append(hunger.as_str());
        s.append(" Fitness: ");
        let fitness = i8_dec_str(self.fitness);
        s.append(fitness.as_str());
        proof {
            assert(s@ =~= status_text(self@));
        }
        s
    }

    /// Feed the pet: hunger drops by 3, clamped at a floor of 0.
    ///
    /// The clamp test compares `hunger < 3` rather than `hunger - 3 < 0`, so
    /// the subtraction can never underflow the narrow integer.
    pub fn feed(&mut self)
        ensures
            final(self)@ == old(self)@.feed_step(),
    {
        if self.hunger < 3 {
            self.hunger = 0;
        } else {
            self.hunger = self.hunger - 3;
        }
        proof {
            assert(self@ =~= old(self)@.feed_step());
        }
    }

    /// Walk the pet: fitness rises by 3, clamped at a ceiling of 10.
    ///
    /// The clamp test compares `fitness > 7` rather than `fitness + 3 > 10`,
    /// so the addition can never overflow the narrow integer.
    pub fn walk(&mut self)
        ensures
            final(self)@ == old(self)@.walk_step(),
    {
        if self.fitness > 7 {
            self.fitness = 10;
        } else {
            self.fitness = self.fitness + 3;
        }
        proof {
            assert(self@ =~= old(self)@.walk_step());
        }
    }

    /// Age the pet by one step: age +1, hunger +3, fitness -3, unclamped.
    ///
    /// The bounds in `requires` only keep the narrow counters from
    /// overflowing; they hold in every state reachable from the default.
    pub fn grow_up(&mut self)
        requires
            old(self).age < 127,
            old(self).hunger <= 124,
            old(self).fitness >= -125,
        ensures
            final(self)@ == old(self)@.grow_up_step(),
    {
        self.age = self.age + 1;
        self.hunger = self.hunger + 3;
        self.fitness = self.fitness - 3;
        proof {
            assert(self@ =~= old(self)@.grow_up_step());
        }
    }

    /// Append one child name to the pet's children, preserving prior order.
    pub fn adopt_child(&mut self, child_name: String)
        ensures
            final(self)@ == old(self)@.adopt_step(child_name@),
    {
        proof {
            old(self).children@.lemma_push_map_commute(|c: String| c@, child_name);
        }
        self.children.push(child_name);
        proof {
            assert(self@ =~= old(self)@.adopt_step(child_name@));
        }
    }

    /// The generational transition offered once the pet has reached age 10:
    /// the old pet's name and children are captured first, the pet is replaced
    /// by a default one, the old children are re-adopted in order, and the old
    /// pet's own name is adopted as one more child.
    pub fn have_child(&mut self)
        requires
            old(self)@.age >= 10,
        ensures
            final(self)@ == old(self)@.have_child_step(),
    {
        let old_name = self.name.clone();
        let older_children = self.children.clone();
        proof {
            assert(older_children@ =~= old(self).children@);
        }
        *self = Pet::default();
        let ghost prior: Seq<Seq<char>> = old(self)@.children;
        let n = older_children.len();
        let mut i: usize = 0;
        while i < n
            invariant
                n == older_children.len(),
                i <= n,
                prior == old(self)@.children,
                older_children@ == old(self).children@,
                self@.children =~= prior.subrange(0, i as int),
                self@.name == default_model().name,
                self@.age == default_model().age,
                self@.hunger == default_model().hunger,
                self@.fitness == default_model().fitness,
            decreases n - i,
        {
            let child = older_children[i].clone();
            self.adopt_child(child);
            proof {
                assert(self@.children =~= prior.subrange(0, i as int + 1));
            }
            i = i + 1;
        }
        self.adopt_child(old_name);
        proof {
            assert(prior.subrange(0, prior.len() as int) =~= prior);
            assert(self@ =~= old(self)@.have_child_step());
        }
    }

    /// Replace the whole state with the default pet, discarding everything
    /// including the children.
    pub fn reset(&mut self)
        ensures
            final(self)@ == default_model(),
    {
        *self = Pet::default();
    }
}

} // verus!
