use pr47_core::data::custom_vt::{ContainerPtr, ContainerVT, CONTAINER_MASK};
use pr47_core::data::traits::StaticBase;
use pr47_core::data::tyck::{ContainerTyckInfo, TyckInfo, TyckInfoPool, TyckRef, TypeId};
use pr47_core::util::void::Void;

fn table(type_id: u64, params: Vec<TyckRef>) -> ContainerVT<u8, u8, u8> {
    ContainerVT::new(ContainerTyckInfo { type_id: TypeId(type_id), params }, "table", 1, 2, 3)
}

fn container(type_id: u64, params: Vec<TyckRef>) -> TyckInfo {
    TyckInfo::Container(ContainerTyckInfo { type_id: TypeId(type_id), params })
}

#[test]
fn plain_check_accepts_the_own_identity_only() {
    let own = <Void as StaticBase<String>>::type_id();
    assert!(<Void as StaticBase<String>>::tyck(&TyckInfo::Plain(own)));
    for other in [1u64, 2, 77, u64::MAX] {
        assert!(!<Void as StaticBase<String>>::tyck(&TyckInfo::Plain(TypeId(other))));
    }
}

#[test]
fn plain_check_rejects_every_container_descriptor() {
    let own = <Void as StaticBase<String>>::type_id();
    assert!(!<Void as StaticBase<String>>::tyck(&container(own.0, vec![])));
    assert!(!<Void as StaticBase<String>>::tyck(&container(own.0, vec![TyckRef(0)])));
    assert!(!<Void as StaticBase<String>>::tyck(&container(5, vec![])));
}

#[test]
fn string_capability() {
    assert_eq!(<Void as StaticBase<String>>::display_name(), "string");
    assert!(<Void as StaticBase<String>>::children(&String::from("leaf")).is_none());
}

#[test]
fn capability_interns_its_descriptor() {
    let mut pool = TyckInfoPool::new();
    let first = <Void as StaticBase<String>>::tyck_info(&mut pool);
    let again = <Void as StaticBase<String>>::tyck_info(&mut pool);
    assert_eq!(first, again);
    assert_eq!(pool.len(), 1);
    assert!(pool.get(first).same(&TyckInfo::Plain(TypeId(0))));
}

#[test]
fn table_keeps_what_it_was_made_of() {
    let vt: ContainerVT<u8, u16, u32> = ContainerVT::new(
        ContainerTyckInfo { type_id: TypeId(9), params: vec![TyckRef(3)] },
        "vec",
        1,
        2,
        3,
    );
    assert_eq!(vt.tyck_info.type_id, TypeId(9));
    assert_eq!(vt.tyck_info.params, vec![TyckRef(3)]);
    assert_eq!(vt.display_name, "vec");
    assert_eq!(vt.move_out_fn, 1);
    assert_eq!(vt.children_fn, 2);
    assert_eq!(vt.drop_fn, 3);
}

#[test]
fn container_check_rejects_plain_descriptors() {
    let vt = table(9, vec![]);
    assert!(!vt.container_tyck(&TyckInfo::Plain(TypeId(9))));
    assert!(!vt.container_tyck(&TyckInfo::Plain(TypeId(1))));
}

#[test]
fn container_check_compares_identity_and_parameter_count() {
    let vt = table(9, vec![TyckRef(0), TyckRef(1)]);
    assert!(vt.container_tyck(&container(9, vec![TyckRef(0), TyckRef(1)])));
    assert!(!vt.container_tyck(&container(8, vec![TyckRef(0), TyckRef(1)])));
    assert!(!vt.container_tyck(&container(9, vec![TyckRef(0)])));
    assert!(!vt.container_tyck(&container(9, vec![])));
    assert!(!vt.container_tyck(&container(9, vec![TyckRef(0), TyckRef(1), TyckRef(2)])));
}

#[test]
fn container_check_does_not_look_into_parameters() {
    let vt = table(9, vec![TyckRef(0), TyckRef(1)]);
    assert!(vt.container_tyck(&container(9, vec![TyckRef(5), TyckRef(6)])));
    assert!(vt.container_tyck(&container(9, vec![TyckRef(1), TyckRef(0)])));
}

#[test]
fn container_constants() {
    assert_eq!(CONTAINER_MASK, 2);
    let p = ContainerPtr { data_ptr: 16, vt: 32 };
    let q = p;
    assert_eq!(p, q);
}

#[test]
fn descriptors_compare_by_what_they_say() {
    assert!(TyckInfo::Plain(TypeId(1)).same(&TyckInfo::Plain(TypeId(1))));
    assert!(!TyckInfo::Plain(TypeId(1)).same(&TyckInfo::Plain(TypeId(2))));
    assert!(!TyckInfo::Plain(TypeId(1)).same(&container(1, vec![])));
    assert!(container(1, vec![TyckRef(0)]).same(&container(1, vec![TyckRef(0)])));
    assert!(!container(1, vec![TyckRef(0)]).same(&container(1, vec![TyckRef(1)])));
    assert!(!container(1, vec![TyckRef(0)]).same(&container(1, vec![])));
    assert!(!container(1, vec![TyckRef(0)]).same(&container(2, vec![TyckRef(0)])));
}

#[test]
fn pool_interns_each_descriptor_once() {
    let mut pool = TyckInfoPool::new();
    assert_eq!(pool.len(), 0);
    let a = pool.create_plain_type(TypeId(10));
    let b = pool.create_plain_type(TypeId(20));
    assert_eq!(a, TyckRef(0));
    assert_eq!(b, TyckRef(1));
    assert_eq!(pool.create_plain_type(TypeId(10)), a);
    assert_eq!(pool.len(), 2);

    let c = pool.create_container_type(TypeId(30), vec![a, b]);
    assert_eq!(c, TyckRef(2));
    assert_eq!(pool.create_container_type(TypeId(30), vec![a, b]), c);
    let d = pool.create_container_type(TypeId(30), vec![b, a]);
    assert_eq!(d, TyckRef(3));
    let e = pool.create_container_type(TypeId(30), vec![c]);
    assert_eq!(e, TyckRef(4));
    assert_eq!(pool.len(), 5);

    assert!(pool.get(a).same(&TyckInfo::Plain(TypeId(10))));
    assert!(pool.get(c).same(&container(30, vec![a, b])));
    assert!(pool.get(e).same(&container(30, vec![c])));
}
