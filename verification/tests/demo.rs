use shadowing::demo::shadowing_example_lines;

#[test]
fn four_lines_in_order() {
    let lines = shadowing_example_lines();
    assert_eq!(lines.len(), 4);
    assert_eq!(lines[0], "before being shadowed: 1");
    assert_eq!(lines[1], "shadowed in inner block: abc");
    assert_eq!(lines[2], "outside inner block: 1");
    assert_eq!(lines[3], "shadowed in outer block: 2");
}

#[test]
fn output_matches_scenario() {
    let lines = shadowing_example_lines();
    let mut out = String::new();
    for line in &lines {
        out.push_str(line);
        out.push('\n');
    }
    assert_eq!(
        out,
        "before being shadowed: 1\n\
         shadowed in inner block: abc\n\
         outside inner block: 1\n\
         shadowed in outer block: 2\n"
    );
}

#[test]
fn value_depends_on_position() {
    let lines = shadowing_example_lines();
    let inner = lines[1].strip_prefix("shadowed in inner block: ");
    let restored = lines[2].strip_prefix("outside inner block: ");
    let rebound = lines[3].strip_prefix("shadowed in outer block: ");
    assert_eq!(inner, Some("abc"));
    assert_eq!(restored, Some("1"));
    assert_eq!(rebound, Some("2"));
    assert_ne!(inner, restored);
    assert_ne!(restored, rebound);
    assert_ne!(inner, rebound);
}

#[test]
fn repeated_invocations_identical() {
    let first = shadowing_example_lines();
    let second = shadowing_example_lines();
    let third = shadowing_example_lines();
    assert_eq!(first, second);
    assert_eq!(second, third);
}
