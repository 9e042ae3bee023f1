use primer::cons_list::{List, SharedList};
use std::rc::Rc;

#[test]
fn iterating_list() {
    let list = List::Cons(
        1,
        Box::new(List::Cons(2, Box::new(List::Cons(3, Box::new(List::Nil))))),
    );
    let mut s = String::new();

    List::for_each(&list, |x: &i32| {
        s.push_str(&x.to_string());
        s.push(' ');
    });

    assert_eq!(s.trim(), String::from("1 2 3"));
}

#[test]
fn iterating_and_mutating_list() {
    let mut list = List::Cons(
        1,
        Box::new(List::Cons(2, Box::new(List::Cons(3, Box::new(List::Nil))))),
    );

    List::for_each_mut(&mut list, |x: &mut i32| *x *= *x);

    let mut s = String::new();

    List::for_each(&list, |x: &i32| {
        s.push_str(&x.to_string());
        s.push(' ');
    });

    assert_eq!(s.trim(), String::from("1 4 9"));
}

#[test]
fn iterating_shared_list() {
    let list1 = Rc::new(SharedList::Cons(
        1,
        Rc::new(SharedList::Cons(
            2,
            Rc::new(SharedList::Cons(3, Rc::new(SharedList::Nil))),
        )),
    ));
    let list2 = Rc::new(SharedList::Cons(20, Rc::clone(&list1)));
    let mut s1 = String::new();

    SharedList::for_each(&list2, |x: &i32| {
        s1.push_str(&x.to_string());
        s1.push(' ');
    });

    let list3 = Rc::new(SharedList::Cons(30, Rc::clone(&list1)));
    let mut s2 = String::new();

    SharedList::for_each(&list3, |x: &i32| {
        s2.push_str(&x.to_string());
        s2.push(' ');
    });

    assert_eq!(s1.trim(), String::from("20 1 2 3"));
    assert_eq!(s2.trim(), String::from("30 1 2 3"));
}
