use lifetime::placeholder::placeholder;

#[test]
fn placeholder_names_follow_the_index() {
    assert_eq!(placeholder(0), "x0");
    assert_eq!(placeholder(7), "x7");
    assert_eq!(placeholder(10), "x10");
    assert_eq!(placeholder(1203), "x1203");
    assert_eq!(placeholder(usize::MAX), format!("x{}", usize::MAX));
}

#[test]
fn placeholder_names_are_distinct() {
    let names: Vec<String> = (0..200).map(placeholder).collect();
    for i in 0..names.len() {
        for j in (i + 1)..names.len() {
            assert_ne!(names[i], names[j]);
        }
    }
}
