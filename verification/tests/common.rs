use grapheme::common::grapheme_element::{
    GraphemeElement, GraphemeElementError, GraphemeElementInfo,
};
use grapheme::common::utils::modulo;

struct Group {
    info: GraphemeElementInfo,
}

impl GraphemeElement for Group {
    fn get_element_info(&self) -> &GraphemeElementInfo {
        &self.info
    }

    fn get_element_info_mut(&mut self) -> &mut GraphemeElementInfo {
        &mut self.info
    }
}

fn info(id: usize, parent: Option<usize>) -> GraphemeElementInfo {
    GraphemeElementInfo {
        id,
        precedence: 0,
        parent,
        needs_update: false,
        children: Vec::new(),
        visible: true,
    }
}

#[test]
fn modulo_of_integers() {
    assert_eq!(modulo(7, 3), 1);
    assert_eq!(modulo(-7, 3), 2);
    assert_eq!(modulo(-1, 5), 4);
    assert_eq!(modulo(0, 5), 0);
    assert_eq!(modulo(5, 5), 0);
    assert_eq!(modulo(-5, 5), 0);
    assert_eq!(modulo(-7i64, 3i64), 2);
    assert_eq!(modulo(7u8, 3u8), 1);
    assert_eq!(modulo(9usize, 4usize), 1);
}

#[test]
fn modulo_takes_the_sign_of_the_modulus() {
    assert_eq!(modulo(7, -3), -2);
    assert_eq!(modulo(-7, -3), -1);
    assert_eq!(modulo(6, -3), 0);
    for n in -12..12 {
        for m in 1..6 {
            let r = modulo(n, m);
            assert!(0 <= r && r < m);
            assert_eq!((n - r) % m, 0);
            let s = modulo(n, -m);
            assert!(-m < s && s <= 0);
            assert_eq!((n - s) % m, 0);
        }
    }
}

#[test]
fn modulo_near_the_limits() {
    assert_eq!(modulo(i64::MIN, 2), 0);
    assert_eq!(modulo(i64::MIN + 1, 2), 1);
    assert_eq!(modulo(i32::MAX, 2), 1);
    assert_eq!(modulo(-1i8, 127), 126);
    assert_eq!(modulo(255u8, 1), 0);
    assert_eq!(modulo(100u8, 101), 100);
}

#[test]
fn error_messages() {
    assert_eq!(
        GraphemeElementError::AlreadyChildOfSomeone.message(),
        "Element is already a child of some element."
    );
    assert_eq!(
        GraphemeElementError::AlreadyMyChild.message(),
        "Element is already a child of this group."
    );
    assert_ne!(GraphemeElementError::AlreadyChildOfSomeone, GraphemeElementError::AlreadyMyChild);
}

#[test]
fn add_takes_over_an_element_that_has_a_parent() {
    let mut group = Group { info: info(1, None) };
    let mut element = info(2, Some(9));
    element.precedence = 4;
    assert_eq!(group.add(&mut element), Ok(()));
    assert_eq!(element.parent, Some(1));
    assert_eq!(element.id, 2);
    assert_eq!(element.precedence, 4);
    assert_eq!(group.get_element_info().children, vec![2]);
    assert_eq!(group.get_element_info().parent, None);

    let mut next = info(3, Some(1));
    assert_eq!(group.add(&mut next), Ok(()));
    assert_eq!(next.parent, Some(1));
    assert_eq!(group.get_element_info().children, vec![2, 3]);
}

#[test]
fn add_refuses_an_element_without_a_parent() {
    let mut group = Group { info: info(1, None) };
    let mut element = info(2, None);
    assert_eq!(group.add(&mut element), Err(GraphemeElementError::AlreadyChildOfSomeone));
    assert_eq!(element.parent, None);
    assert!(group.get_element_info().children.is_empty());
}

#[test]
fn attach_sets_the_parent_and_appends_the_child() {
    let mut parent = info(7, Some(0));
    parent.precedence = -3;
    parent.needs_update = true;
    parent.children.push(5);
    let mut element = info(8, Some(4));
    element.visible = false;
    element.children.push(11);
    assert_eq!(parent.attach(&mut element), Ok(()));
    assert_eq!(element.parent, Some(7));
    assert_eq!(element.id, 8);
    assert!(!element.visible);
    assert_eq!(element.children, vec![11]);
    assert_eq!(parent.children, vec![5, 8]);
    assert_eq!(parent.id, 7);
    assert_eq!(parent.parent, Some(0));
    assert_eq!(parent.precedence, -3);
    assert!(parent.needs_update);
    assert!(parent.visible);
}

#[test]
fn attach_refuses_an_element_without_a_parent() {
    let mut parent = info(7, None);
    parent.children.push(5);
    let mut element = info(8, None);
    assert_eq!(parent.attach(&mut element), Err(GraphemeElementError::AlreadyChildOfSomeone));
    assert_eq!(element.parent, None);
    assert_eq!(element.id, 8);
    assert_eq!(parent.children, vec![5]);
}
