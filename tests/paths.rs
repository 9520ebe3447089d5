use kathy::family::{Family, Person, Vec2};
use kathy::keyable::{plan_keyable, DeclShape, FieldDecl, KeyableError};
use kathy::{replace_at, Aggregator, KeyPath, KeyPathIndexable, MapKeyPath, TypeEquals, UsizeKeyPath};

fn joe() -> Person {
    Person {
        age: 10,
        name: "Joe".to_string(),
        dimensions: Vec2 {
            height: 20,
            width: 4,
        },
    }
}

fn people() -> Vec<Person> {
    vec![
        Person {
            age: 30,
            name: "Kathy".to_string(),
            dimensions: Vec2 {
                height: 100,
                width: 20,
            },
        },
        Person {
            age: 31,
            name: "Karen".to_string(),
            dimensions: Vec2 {
                height: 120,
                width: 40,
            },
        },
        Person {
            age: 32,
            name: "Kaley".to_string(),
            dimensions: Vec2 {
                height: 140,
                width: 60,
            },
        },
    ]
}

#[test]
fn family_height_read_and_write() {
    let mut family = Family { mom: joe() };
    let path = Family::mom.chain(Person::dimensions).chain(Vec2::height);
    assert_eq!(*family.idx_ref(path), 20);

    *family.idx_mut(path) = 5;
    assert_eq!(*family.idx_ref(path), 5);
    assert_eq!(family.mom.dimensions.width, 4);
    assert_eq!(family.mom.age, 10);
    assert_eq!(family.mom.name, "Joe");
}

#[test]
fn family_height_by_field_ids() {
    let family = Family { mom: joe() };
    let path = Family::mom.kp::<2>().kp::<0>();
    assert_eq!(*family.idx_ref(path), 20);
    assert_eq!(family.idx(path), 20);
}

#[test]
fn field_tokens_match_direct_access() {
    let mut p = joe();
    assert_eq!(*p.idx_ref(Person::age), p.age);
    assert_eq!(*p.idx_ref(Person::name), p.name);
    assert_eq!(*p.dimensions.idx_ref(Vec2::height), p.dimensions.height);
    assert_eq!(*p.dimensions.idx_ref(Vec2::width), p.dimensions.width);

    *p.idx_mut(Person::age) = 11;
    assert_eq!(p.age, 11);
    p.idx_mut(Person::name).push_str("y");
    assert_eq!(p.name, "Joey");
    *p.dimensions.idx_mut(Vec2::width) = 9;
    assert_eq!(p.dimensions.width, 9);
    assert_eq!(p.dimensions.height, 20);

    assert_eq!(joe().idx(Person::age), 10);
    assert_eq!(joe().idx(Person::name), "Joe");
    let d = joe().idx(Person::dimensions);
    assert_eq!((d.height, d.width), (20, 4));
}

#[test]
fn grouping_does_not_change_the_path() {
    let family = Family { mom: joe() };
    let flat = Family::mom.chain(Person::dimensions).chain(Vec2::height);
    let left = Aggregator::new((Vec2::height, Family::mom.chain(Person::dimensions)));
    let right = Family::mom.chain(Person::dimensions.chain(Vec2::height));
    let raw = ((Vec2::height, Person::dimensions), Family::mom);
    assert_eq!(*family.idx_ref(flat), 20);
    assert_eq!(*family.idx_ref(left), 20);
    assert_eq!(*family.idx_ref(right), 20);
    assert_eq!(*family.idx_ref(raw), 20);
}

#[test]
fn write_through_composite_path_then_read() {
    let mut family = Family { mom: joe() };
    let path = Family::mom.chain(Person::dimensions).chain(Vec2::width);
    let prev = replace_at(&mut family, path, 77);
    assert_eq!(prev, 4);
    assert_eq!(*family.idx_ref(path), 77);
    assert_eq!(family.mom.dimensions.height, 20);
    assert_eq!(family.mom.age, 10);
    assert_eq!(family.mom.name, "Joe");

    let name_path = Family::mom.chain(Person::name);
    let old_name = replace_at(&mut family, name_path, "Jo".to_string());
    assert_eq!(old_name, "Joe");
    assert_eq!(*family.idx_ref(name_path), "Jo");
    assert_eq!(family.mom.dimensions.width, 77);
}

#[test]
fn index_ref_and_mut_keep_length() {
    let mut v = vec![10u32, 20, 30, 40];
    assert_eq!(*v.idx_ref(UsizeKeyPath::<2>), 30);
    *v.idx_mut(UsizeKeyPath::<2>) = 33;
    assert_eq!(v, vec![10, 20, 33, 40]);
    assert_eq!(v.len(), 4);
}

#[test]
fn index_by_value_removes_one_item() {
    let mut v = vec![10u32, 20, 30, 40];
    assert_eq!(UsizeKeyPath::<1>.remove_from(&mut v), 20);
    assert_eq!(v, vec![10, 30, 40]);
    assert_eq!(UsizeKeyPath::<2>.remove_from(&mut v), 40);
    assert_eq!(v, vec![10, 30]);
    assert_eq!(vec![7u8, 8, 9].idx(UsizeKeyPath::<0>), 7);
}

#[test]
fn index_then_fields() {
    let mut crowd = people();
    let path = UsizeKeyPath::<1>.chain(Person::dimensions).chain(Vec2::height);
    assert_eq!(*crowd.idx_ref(path), 120);
    *crowd.idx_mut(path) = 121;
    assert_eq!(crowd[1].dimensions.height, 121);
    assert_eq!(crowd[0].dimensions.height, 100);
    assert_eq!(crowd[2].dimensions.height, 140);
    assert_eq!(crowd.len(), 3);
    let name = people().idx(UsizeKeyPath::<2>.chain(Person::name));
    assert_eq!(name, "Kaley");
}

#[test]
fn map_kp_yields_in_order() {
    let crowd = people();
    let mut heights = crowd.map_kp(Person::dimensions.chain(Vec2::height));
    assert_eq!(heights.next(), Some(&100));
    assert_eq!(heights.next(), Some(&120));
    assert_eq!(heights.next(), Some(&140));
    assert_eq!(heights.next(), None);
    assert_eq!(heights.position(), 3);
}

#[test]
fn map_kp_is_lazy() {
    let crowd = people();
    let mut names = crowd.map_kp(Person::name);
    assert_eq!(names.position(), 0);
    assert_eq!(names.next().map(|s| s.as_str()), Some("Kathy"));
    assert_eq!(names.position(), 1);
    let mut empty: Vec<Person> = Vec::new();
    empty.clear();
    assert_eq!(empty.map_kp(Person::age).next(), None);
}

#[test]
fn builders_extend_paths() {
    let crowd = vec![vec![1u8, 2], vec![3, 4, 5]];
    let agg = Aggregator::new(UsizeKeyPath::<1>).idx::<2>();
    assert_eq!(*crowd.idx_ref(agg), 5);
    let _order: Aggregator<(UsizeKeyPath<0>, KeyPath<2>)> = Person::dimensions.idx::<0>();
    let sizes = vec![Vec2 { height: 1, width: 2 }, Vec2 { height: 3, width: 4 }];
    assert_eq!(*sizes.idx_ref(UsizeKeyPath::<1>.kp::<1>()), 4);
    assert_eq!(*crowd.idx_ref(UsizeKeyPath::<0>.idx::<1>()), 2);
    let deep = Aggregator::new(Family::mom).kp::<2>().kp::<1>();
    assert_eq!(Family { mom: joe() }.idx(deep), 4);
}

#[test]
fn keyable_rejects_positional_fields() {
    for shape in [DeclShape::Unnamed(2), DeclShape::Unit, DeclShape::NotStruct] {
        match plan_keyable(&shape) {
            Err(e) => {
                assert!(matches!(e, KeyableError::NotNamedFields));
                assert_eq!(
                    e.message(),
                    "The Keyable macro can only be used on structs with named fields"
                );
            }
            Ok(_) => panic!("a declaration without named fields was accepted"),
        }
    }
}

#[test]
fn keyable_plans_one_token_per_field() {
    let shape = DeclShape::Named(vec![
        FieldDecl {
            name: "height".to_string(),
            ty: "u16".to_string(),
        },
        FieldDecl {
            name: "width".to_string(),
            ty: "u16".to_string(),
        },
    ]);
    let tokens = match plan_keyable(&shape) {
        Ok(t) => t,
        Err(_) => panic!("named fields were refused"),
    };
    assert_eq!(tokens.len(), 2);
    assert_eq!((tokens[0].name.as_str(), tokens[0].ty.as_str(), tokens[0].id), ("height", "u16", 0));
    assert_eq!((tokens[1].name.as_str(), tokens[1].ty.as_str(), tokens[1].id), ("width", "u16", 1));
    let none = plan_keyable(&DeclShape::Named(Vec::new()));
    assert!(matches!(none, Ok(ref t) if t.is_empty()));
}

#[test]
fn type_equals_is_identity() {
    let x: u32 = 7u32.to_type();
    assert_eq!(x, 7);
    let k: KeyPath<3> = KeyPath::<3>.to_type();
    let _ = k;
}

#[test]
fn into_map_kp_takes_items_in_order() {
    let mut names = people().into_map_kp(Person::name);
    assert_eq!(names.remaining(), 3);
    assert_eq!(names.next(), Some("Kathy".to_string()));
    assert_eq!(names.remaining(), 2);
    assert_eq!(names.next(), Some("Karen".to_string()));
    assert_eq!(names.next(), Some("Kaley".to_string()));
    assert_eq!(names.next(), None);
    assert_eq!(names.remaining(), 0);

    let mut widths = people().into_map_kp(Person::dimensions.chain(Vec2::width));
    assert_eq!(widths.next(), Some(20));
    assert_eq!(widths.remaining(), 2);
}
