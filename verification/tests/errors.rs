use zk_response::{Check, Create, Delete, GetAcl, Multi, SetAcl, SetData};

#[test]
fn lifting_equals_wrapping() {
    assert_eq!(Multi::from(Delete::BadVersion { expected: 7 }), Multi::Delete(Delete::BadVersion { expected: 7 }));
    assert_eq!(Multi::from(Delete::NoNode), Multi::Delete(Delete::NoNode));
    assert_eq!(Multi::from(Delete::NotEmpty), Multi::Delete(Delete::NotEmpty));
    assert_eq!(Multi::from(SetData::BadVersion { expected: 7 }), Multi::SetData(SetData::BadVersion { expected: 7 }));
    assert_eq!(Multi::from(SetData::NoAuth), Multi::SetData(SetData::NoAuth));
    assert_eq!(Multi::from(Create::NodeExists), Multi::Create(Create::NodeExists));
    assert_eq!(Multi::from(Create::NoChildrenForEphemerals), Multi::Create(Create::NoChildrenForEphemerals));
    assert_eq!(Multi::from(Check::BadVersion { expected: 7 }), Multi::Check(Check::BadVersion { expected: 7 }));
    assert_eq!(Multi::from(Check::NoNode), Multi::Check(Check::NoNode));
}

#[test]
fn lifting_through_into() {
    let lifted: Multi = Create::InvalidAcl.into();
    assert_eq!(lifted, Multi::Create(Create::InvalidAcl));
    let lifted: Multi = SetData::NoNode.into();
    assert_eq!(lifted, Multi::SetData(SetData::NoNode));
}

#[test]
fn errors_compare_by_structure() {
    assert_eq!(Delete::BadVersion { expected: 3 }, Delete::BadVersion { expected: 3 });
    assert_ne!(Delete::BadVersion { expected: 3 }, Delete::BadVersion { expected: 4 });
    assert_ne!(Multi::RolledBack, Multi::Skipped);
    assert_ne!(Multi::Delete(Delete::NoNode), Multi::Check(Check::NoNode));
    assert_eq!(GetAcl::NoNode, GetAcl::NoNode);
    assert_ne!(SetAcl::InvalidAcl, SetAcl::NoAuth);
    assert_ne!(SetAcl::NoNode, SetAcl::BadVersion { expected: 0 });
    assert_ne!(Create::NoNode, Create::NodeExists);
    let copy = Multi::SetData(SetData::BadVersion { expected: 9 });
    let other = copy;
    assert_eq!(copy, other);
}
