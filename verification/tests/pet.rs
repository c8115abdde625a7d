use virtual_pet::Pet;
use virtual_pet::shell::PetApp;

fn pet(name: &str, age: i8, hunger: i8, fitness: i8, children: Vec<&str>) -> Pet {
    Pet {
        name: name.to_string(),
        age,
        hunger,
        fitness,
        children: children.into_iter().map(|c| c.to_string()).collect(),
    }
}

#[test]
fn default_pet_fields() {
    let p = Pet::default();
    assert_eq!(p.name, "Rusty");
    assert_eq!(p.age, 0);
    assert_eq!(p.hunger, 0);
    assert_eq!(p.fitness, 10);
    assert!(p.children.is_empty());
}

#[test]
fn clamp_invariant_holds_along_a_run() {
    let mut p = Pet::default();
    let moves = [0, 1, 2, 2, 0, 0, 1, 1, 2, 0, 1, 2, 2, 2, 0, 0, 0, 1];
    for m in moves {
        match m {
            0 => p.feed(),
            1 => p.walk(),
            _ => p.grow_up(),
        }
        assert!(p.hunger >= 0);
        assert!(p.fitness <= 10);
    }
}

#[test]
fn feed_at_floor_is_idempotent() {
    let mut p = Pet::default();
    assert_eq!(p.hunger, 0);
    p.feed();
    assert_eq!(p.hunger, 0);
    assert_eq!(p, Pet::default());
}

#[test]
fn feed_lowers_hunger_by_three() {
    let mut p = pet("Rusty", 0, 9, 10, vec![]);
    p.feed();
    assert_eq!(p.hunger, 6);
    p.feed();
    assert_eq!(p.hunger, 3);
    p.feed();
    assert_eq!(p.hunger, 0);
}

#[test]
fn feed_clamps_partial_step() {
    let mut p = pet("Rusty", 0, 2, 10, vec![]);
    p.feed();
    assert_eq!(p.hunger, 0);
}

#[test]
fn walk_at_ceiling_is_idempotent() {
    let mut p = Pet::default();
    assert_eq!(p.fitness, 10);
    p.walk();
    assert_eq!(p.fitness, 10);
    assert_eq!(p, Pet::default());
}

#[test]
fn walk_raises_fitness_by_three() {
    let mut p = pet("Rusty", 0, 0, 0, vec![]);
    p.walk();
    assert_eq!(p.fitness, 3);
    p.walk();
    assert_eq!(p.fitness, 6);
    p.walk();
    assert_eq!(p.fitness, 9);
    p.walk();
    assert_eq!(p.fitness, 10);
}

#[test]
fn walk_clamps_from_negative_fitness() {
    let mut p = pet("Rusty", 0, 0, -2, vec![]);
    p.walk();
    assert_eq!(p.fitness, 1);
}

#[test]
fn grow_up_moves_all_three_counters() {
    let mut p = Pet::default();
    p.grow_up();
    assert_eq!(p.age, 1);
    assert_eq!(p.hunger, 3);
    assert_eq!(p.fitness, 7);
    assert!(p.is_alive());
}

#[test]
fn alive_is_recomputed_and_recoverable() {
    let mut p = Pet::default();
    assert!(p.is_alive());
    p.grow_up();
    p.grow_up();
    p.grow_up();
    assert_eq!(p.hunger, 9);
    assert!(p.is_alive());
    p.grow_up();
    assert_eq!(p.hunger, 12);
    assert!(!p.is_alive());
    p.feed();
    assert_eq!(p.hunger, 9);
    assert!(p.fitness < 0);
    assert!(!p.is_alive());
    p.walk();
    assert_eq!(p.fitness, 1);
    assert!(p.is_alive());
}

#[test]
fn alive_thresholds_are_exact() {
    assert!(pet("Rusty", 29, 9, 0, vec![]).is_alive());
    assert!(!pet("Rusty", 30, 9, 0, vec![]).is_alive());
    assert!(!pet("Rusty", 29, 10, 0, vec![]).is_alive());
    assert!(!pet("Rusty", 29, 9, -1, vec![]).is_alive());
}

#[test]
fn age_death_is_permanent() {
    let mut p = pet("Rusty", 30, 0, 10, vec![]);
    assert!(!p.is_alive());
    for _ in 0..40 {
        p.feed();
        p.walk();
        assert!(!p.is_alive());
    }
}

#[test]
fn adopt_appends_preserving_order() {
    let mut p = Pet::default();
    p.adopt_child("Alpha".to_string());
    p.adopt_child("Beta".to_string());
    assert_eq!(p.children, vec!["Alpha".to_string(), "Beta".to_string()]);
    p.adopt_child("X".to_string());
    assert_eq!(
        p.children,
        vec!["Alpha".to_string(), "Beta".to_string(), "X".to_string()]
    );
    assert_eq!(p.age, 0);
    assert_eq!(p.hunger, 0);
    assert_eq!(p.fitness, 10);
}

#[test]
fn end_to_end_grow_feed_walk() {
    let mut p = Pet::default();
    for _ in 0..4 {
        p.grow_up();
    }
    assert_eq!(p.age, 4);
    assert_eq!(p.hunger, 12);
    assert_eq!(p.fitness, -2);
    assert!(!p.is_alive());
    p.feed();
    assert_eq!(p.hunger, 9);
    p.walk();
    assert_eq!(p.fitness, 1);
    assert!(p.is_alive());
}

#[test]
fn have_child_scenario() {
    let mut p = pet("Rusty", 10, 0, 10, vec!["Spot"]);
    p.have_child();
    assert_eq!(p.name, "Rusty");
    assert_eq!(p.age, 0);
    assert_eq!(p.hunger, 0);
    assert_eq!(p.fitness, 10);
    assert_eq!(p.children, vec!["Spot".to_string(), "Rusty".to_string()]);
}

#[test]
fn have_child_renamed_pet() {
    let mut p = pet("Maple", 12, 6, 4, vec!["Spot", "Rex"]);
    p.have_child();
    assert_eq!(p.name, "Rusty");
    assert_eq!(p.age, 0);
    assert_eq!(p.hunger, 0);
    assert_eq!(p.fitness, 10);
    assert_eq!(
        p.children,
        vec!["Spot".to_string(), "Rex".to_string(), "Maple".to_string()]
    );
}

#[test]
fn reset_restores_the_default() {
    let mut p = pet("Maple", 25, 7, -3, vec!["Spot", "Rex"]);
    p.reset();
    assert_eq!(p, Pet::default());
}

#[test]
fn status_of_the_default_pet() {
    let p = Pet::default();
    assert_eq!(p.status(), "Age: 0 Hunger: 0 Fitness: 10");
}

#[test]
fn status_after_aging() {
    let mut p = Pet::default();
    for _ in 0..4 {
        p.grow_up();
    }
    assert_eq!(p.status(), "Age: 4 Hunger: 12 Fitness: -2");
}

#[test]
fn status_at_the_extremes() {
    let p = pet("Rusty", 127, -128, 100, vec![]);
    assert_eq!(p.status(), "Age: 127 Hunger: -128 Fitness: 100");
    let q = pet("Rusty", -1, 10, -99, vec![]);
    assert_eq!(q.status(), "Age: -1 Hunger: 10 Fitness: -99");
}

#[test]
fn shell_state_starts_with_the_default_pet() {
    let app = PetApp::default();
    assert_eq!(app.pet, Pet::default());
}
