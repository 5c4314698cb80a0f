use mailchimp_drive::options::{Arguments, DEFAULT_PORT};
use mailchimp_drive::targets::TargetResourceSet;

fn strings(items: &[&str]) -> Vec<String> {
    items.iter().map(|s| s.to_string()).collect()
}

#[test]
fn there_is_no_empty_set() {
    assert!(TargetResourceSet::new(&Vec::new()).is_none());
}

#[test]
fn a_single_id_makes_a_set() {
    let set = TargetResourceSet::new(&strings(&["driveA"])).unwrap();
    assert_eq!(set.ids(), &strings(&["driveA"]));
}

#[test]
fn distinct_ids_keep_their_order() {
    let given = strings(&["driveB", "driveA", "driveC"]);
    let set = TargetResourceSet::new(&given).unwrap();
    assert_eq!(set.ids(), &given);
}

#[test]
fn repeated_ids_stand_where_they_first_occur() {
    let given = strings(&["b", "a", "b", "c", "a", "a", "d"]);
    let set = TargetResourceSet::new(&given).unwrap();
    assert_eq!(set.ids(), &strings(&["b", "a", "c", "d"]));
}

#[test]
fn ids_differing_in_case_are_different() {
    let given = strings(&["drive", "Drive", "drive"]);
    let set = TargetResourceSet::new(&given).unwrap();
    assert_eq!(set.ids(), &strings(&["drive", "Drive"]));
}

#[test]
fn the_same_id_many_times_is_one_id() {
    let set = TargetResourceSet::new(&strings(&["x", "x", "x"])).unwrap();
    assert_eq!(set.ids(), &strings(&["x"]));
}

#[test]
fn a_duplicate_equals_the_set() {
    let set = TargetResourceSet::new(&strings(&["a", "b"])).unwrap();
    let copy = set.duplicate();
    assert_eq!(copy, set);
    assert_eq!(copy.ids(), &strings(&["a", "b"]));
}

#[test]
fn arguments_default_to_the_usual_key_file_and_port() {
    let arguments = Arguments::with_defaults(strings(&["driveA"]));
    assert_eq!(arguments.drive_id, strings(&["driveA"]));
    assert_eq!(arguments.secret, "clientsecret.json");
    assert_eq!(arguments.port, 3030);
    assert_eq!(DEFAULT_PORT, 3030);
}

#[test]
fn arguments_give_the_set_of_their_drives() {
    let arguments = Arguments {
        drive_id: strings(&["driveA", "driveB", "driveA"]),
        secret: "key.json".to_string(),
        port: 8080,
    };
    let set = arguments.targets().unwrap();
    assert_eq!(set.ids(), &strings(&["driveA", "driveB"]));
}

#[test]
fn arguments_without_drives_give_no_set() {
    assert!(Arguments::with_defaults(Vec::new()).targets().is_none());
}
