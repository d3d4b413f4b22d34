use std::ops::Deref;

use playground::list::List;

#[derive(Clone, Default)]
struct Test {
    value: usize,
}

fn print_str(s: &str) {
    println!("{}", s);
}

struct Wrapper {
    s: &'static str,
}

impl Wrapper {
    fn new() -> Self {
        Self { s: "Hello?" }
    }
}

impl Deref for Wrapper {
    type Target = &'static str;

    fn deref(&self) -> &Self::Target {
        return &self.s;
    }
}

#[test]
fn dereference() {
    let s = String::from("Test");

    print_str(&s);
    print_str(*Wrapper::new());
    print_str(&Wrapper::new());

    let a: &String = &s;
    let b: &str = *Wrapper::new();
    let c: &Wrapper = &Wrapper::new();

    print_str(a);
    print_str(b);
    print_str(c);

    let a_deref: &str = &a;
    let b_deref: &str = &b;
    let c_deref: &str = &c;

    print_str(a_deref);
    print_str(b_deref);
    print_str(c_deref);
}

#[test]
fn boxed() {
    // Experimenting with `std::boxed::Box`.

    let mut test: Test = Default::default();
    test.value = 1;
    let mut boxed_1 = Box::new(test);
    let boxed_2 = boxed_1.clone(); // This clones everything on heap.

    assert_eq!(boxed_1.value, 1);
    assert_eq!(boxed_2.value, 1);

    boxed_1.value = 2;

    // The two boxes are NOT pointing to the same object!
    assert_eq!(boxed_1.value, 2);
    assert_eq!(boxed_2.value, 1);

    // Objects can be returned from the heap:
    let test_1 = *boxed_1; // Cannot repeat.
    let test_2 = *boxed_2; // Cannot repeat.

    assert_eq!(test_1.value, 2);
    assert_eq!(test_2.value, 1);
}

#[test]
fn boxed_recursive_structure() {
    let list: List<usize> = List::new();
    assert_eq!(format!("{:?}", list), "Empty");
    let list = list.append(0).append(1).append(2);
    assert_eq!(format!("{:?}", list), "List(0, List(1, List(2, Empty)))");
}

#[test]
fn pinned() {
    // A struct cannot hold a value and a reference to that same value:
    // moving the struct would invalidate the reference, so such a pair
    // needs pinning and does not compile as plain fields.
}
