use gp_tuts::uniforms::UniformSet;

fn names_and_values(set: &UniformSet<f32>) -> Vec<(String, f32)> {
    set.entries().clone()
}

#[test]
fn new_set_is_empty() {
    let set: UniformSet<f32> = UniformSet::new();
    assert!(set.entries().is_empty());
}

#[test]
fn new_names_go_last_in_order() {
    let mut set = UniformSet::new();
    set.set("t".to_string(), 0.25f32);
    set.set("scale".to_string(), 2.0);
    assert_eq!(names_and_values(&set), vec![("t".to_string(), 0.25), ("scale".to_string(), 2.0)]);
}

#[test]
fn setting_a_name_again_replaces_its_value_in_place() {
    let mut set = UniformSet::new();
    set.set("a".to_string(), 1.0f32);
    set.set("b".to_string(), 2.0);
    set.set("a".to_string(), 3.0);
    assert_eq!(names_and_values(&set), vec![("a".to_string(), 3.0), ("b".to_string(), 2.0)]);
}

#[test]
fn names_differing_in_case_are_distinct() {
    let mut set = UniformSet::new();
    set.set("u_light".to_string(), 1.0f32);
    set.set("U_LIGHT".to_string(), 2.0);
    assert_eq!(set.entries().len(), 2);
}
