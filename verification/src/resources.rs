//! Resource types, visibility classes, and the parent/child rules of the
//! resource hierarchy.

use vstd::prelude::*;

use crate::error::RequestError;

verus! {

/// The four kinds of resource the platform manages, from the root of the
/// hierarchy downwards.
#[derive(Clone, Copy, Debug, PartialEq, Eq, Hash, Structural)]
pub enum ResourceType {
    Project,
    Collection,
    Dataset,
    Object,
}

/// The resource type named by a submitted form value, if any.
pub open spec fn resource_type_of(s: Seq<char>) -> Option<ResourceType> {
    if s == "Project"@ {
        Some(ResourceType::Project)
    } else if s == "Collection"@ {
        Some(ResourceType::Collection)
    } else if s == "Dataset"@ {
        Some(ResourceType::Dataset)
    } else if s == "Object"@ {
        Some(ResourceType::Object)
    } else {
        None
    }
}

/// The form value that names a resource type.
pub open spec fn spec_resource_type_name(t: ResourceType) -> Seq<char> {
    match t {
        ResourceType::Project => "Project"@,
        ResourceType::Collection => "Collection"@,
        ResourceType::Dataset => "Dataset"@,
        ResourceType::Object => "Object"@,
    }
}

/// Parses the `resource_type` field of a creation form. Exactly the four
/// names `Project`, `Collection`, `Dataset` and `Object` are recognized;
/// anything else is rejected as a validation failure.
pub fn parse_resource_type(resource_type: &String) -> (r: Result<ResourceType, RequestError>)
    ensures
        r == (match resource_type_of(resource_type@) {
            Some(t) => Ok::<ResourceType, RequestError>(t),
            None => Err::<ResourceType, RequestError>(RequestError::ValidationError),
        }),
{
    if *resource_type == "Project".to_owned() {
        Ok(ResourceType::Project)
    } else if *resource_type == "Collection".to_owned() {
        Ok(ResourceType::Collection)
    } else if *resource_type == "Dataset".to_owned() {
        Ok(ResourceType::Dataset)
    } else if *resource_type == "Object".to_owned() {
        Ok(ResourceType::Object)
    } else {
        Err(RequestError::ValidationError)
    }
}

/// The form value for a resource type, as offered by the creation page.
pub fn resource_type_name(t: ResourceType) -> (r: String)
    ensures
        r@ == spec_resource_type_name(t),
{
    match t {
        ResourceType::Project => "Project".to_owned(),
        ResourceType::Collection => "Collection".to_owned(),
        ResourceType::Dataset => "Dataset".to_owned(),
        ResourceType::Object => "Object".to_owned(),
    }
}

/// Every name produced by `resource_type_name` parses back to the type it names.
pub proof fn lemma_resource_type_name_parses(t: ResourceType)
    ensures
        resource_type_of(spec_resource_type_name(t)) == Some(t),
{
    reveal_strlit("Project");
    reveal_strlit("Collection");
    reveal_strlit("Dataset");
    reveal_strlit("Object");
    assert("Project"@.len() == 7);
    assert("Collection"@.len() == 10);
    assert("Dataset"@.len() == 7);
    assert("Object"@.len() == 6);
    assert("Project"@[0] == 'P');
    assert("Dataset"@[0] == 'D');
}

/// Whether a resource of this type must be linked to a parent: every
/// resource but a project needs one.
pub open spec fn spec_parent_required(t: ResourceType) -> bool {
    t != ResourceType::Project
}

/// Whether a resource of type `child` may be nested under a resource of
/// type `parent`: collections go under projects only; datasets under
/// projects or collections; objects under projects, collections or
/// datasets; projects have no parent.
pub open spec fn spec_parent_compatible(child: ResourceType, parent: ResourceType) -> bool {
    match child {
        ResourceType::Project => false,
        ResourceType::Collection => parent == ResourceType::Project,
        ResourceType::Dataset => parent == ResourceType::Project
            || parent == ResourceType::Collection,
        ResourceType::Object => parent == ResourceType::Project
            || parent == ResourceType::Collection || parent == ResourceType::Dataset,
    }
}

/// The parent types the creation page offers for a given child type.
pub open spec fn spec_allowed_parent_types(t: ResourceType) -> Seq<ResourceType> {
    match t {
        ResourceType::Project => Seq::<ResourceType>::empty(),
        ResourceType::Collection => seq![ResourceType::Project],
        ResourceType::Dataset => seq![ResourceType::Project, ResourceType::Collection],
        ResourceType::Object => seq![
            ResourceType::Project,
            ResourceType::Collection,
            ResourceType::Dataset,
        ],
    }
}

/// Whether the creation page must require a parent id for this type.
pub fn parent_required(t: ResourceType) -> (r: bool)
    ensures
        r == spec_parent_required(t),
{
    match t {
        ResourceType::Project => false,
        _ => true,
    }
}

/// The parent-type choices the creation page renders for a given child
/// type, in the order they are offered.
pub fn allowed_parent_types(t: ResourceType) -> (r: Vec<ResourceType>)
    ensures
        r@ == spec_allowed_parent_types(t),
{
    let mut v: Vec<ResourceType> = Vec::new();
    match t {
        ResourceType::Project => {},
        ResourceType::Collection => {
            v.push(ResourceType::Project);
        },
        ResourceType::Dataset => {
            v.push(ResourceType::Project);
            v.push(ResourceType::Collection);
        },
        ResourceType::Object => {
            v.push(ResourceType::Project);
            v.push(ResourceType::Collection);
            v.push(ResourceType::Dataset);
        },
    }
    proof {
        assert(v@ =~= spec_allowed_parent_types(t));
    }
    v
}

/// For every resource type but a project the interface requires a parent,
/// and the parent-type choices it offers are exactly the compatible ones.
pub proof fn lemma_parent_rules(t: ResourceType, p: ResourceType)
    ensures
        spec_parent_required(t) ==> spec_allowed_parent_types(t).len() > 0,
        !spec_parent_required(t) ==> spec_allowed_parent_types(t).len() == 0,
        spec_allowed_parent_types(t).contains(p) <==> spec_parent_compatible(t, p),
{
    let choices = spec_allowed_parent_types(t);
    if spec_parent_compatible(t, p) {
        match t {
            ResourceType::Project => {},
            ResourceType::Collection => {
                assert(choices[0] == p);
            },
            ResourceType::Dataset => {
                if p == ResourceType::Project {
                    assert(choices[0] == p);
                } else {
                    assert(choices[1] == p);
                }
            },
            ResourceType::Object => {
                if p == ResourceType::Project {
                    assert(choices[0] == p);
                } else if p == ResourceType::Collection {
                    assert(choices[1] == p);
                } else {
                    assert(choices[2] == p);
                }
            },
        }
    }
    if choices.contains(p) {
        let i = choose|i: int| 0 <= i < choices.len() && choices[i] == p;
        assert(spec_parent_compatible(t, choices[i]));
    }
}

/// The visibility classes a resource can carry.
#[derive(Clone, Copy, Debug, PartialEq, Eq, Structural)]
pub enum DataClass {
    Public,
    Private,
    Workspace,
    Confidential,
}

/// The wire number of a visibility class, as the remote service and the
/// creation form encode it.
pub open spec fn spec_data_class_number(c: DataClass) -> i32 {
    match c {
        DataClass::Public => 1,
        DataClass::Private => 2,
        DataClass::Workspace => 4,
        DataClass::Confidential => 5,
    }
}

/// The visibility class encoded by a wire number, if any.
pub open spec fn spec_data_class_of(n: i32) -> Option<DataClass> {
    if n == 1 {
        Some(DataClass::Public)
    } else if n == 2 {
        Some(DataClass::Private)
    } else if n == 4 {
        Some(DataClass::Workspace)
    } else if n == 5 {
        Some(DataClass::Confidential)
    } else {
        None
    }
}

/// Encodes a visibility class as its wire number.
pub fn data_class_number(c: DataClass) -> (r: i32)
    ensures
        r == spec_data_class_number(c),
        spec_data_class_of(r) == Some(c),
{
    match c {
        DataClass::Public => 1,
        DataClass::Private => 2,
        DataClass::Workspace => 4,
        DataClass::Confidential => 5,
    }
}

/// Decodes a wire number into a visibility class; numbers the platform
/// does not use yield `None`.
pub fn data_class_from_number(n: i32) -> (r: Option<DataClass>)
    ensures
        r == spec_data_class_of(n),
        r matches Some(c) ==> spec_data_class_number(c) == n,
{
    if n == 1 {
        Some(DataClass::Public)
    } else if n == 2 {
        Some(DataClass::Private)
    } else if n == 4 {
        Some(DataClass::Workspace)
    } else if n == 5 {
        Some(DataClass::Confidential)
    } else {
        None
    }
}

} // verus!
