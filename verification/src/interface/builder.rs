//! Builders of interfaces: the description of an interface, and the element
//! that an interface adds to the structure of its device.
use vstd::prelude::*;
use crate::error::Error;
use crate::info::devices::InfoDynamicDeviceStatus;
use crate::info::structure::{
    DeviceStructure, ElementInterface, StructuralElement, children, exists_in, first_named, hits_attribute,
    lemma_insert_then_exists, lemma_push_inserts, structure_path_ok, topic_layers, topic_well_formed,
};
use crate::text::split_slash;

verus! {

/// Description of an interface: its name and an optional description.
pub struct Interface {
    name: String,
    description: Option<String>,
}

impl Interface {
    pub closed spec fn name_view(&self) -> Seq<char> {
        self.name@
    }

    pub closed spec fn description_view(&self) -> Option<Seq<char>> {
        match self.description {
            Some(d) => Some(d@),
            None => None,
        }
    }

    pub fn get_name(&self) -> (n: &String)
        ensures
            n@ == self.name_view(),
    {
        &self.name
    }
}

/// Builder of an interface description; the name is required.
pub struct InterfaceBuilder {
    name: Option<String>,
    description: Option<String>,
}

/// The message of a build without name.
pub open spec fn interface_name_required_msg() -> Seq<char> {
    "Interface name is required"@
}

impl InterfaceBuilder {
    pub closed spec fn name_view(&self) -> Option<Seq<char>> {
        match self.name {
            Some(n) => Some(n@),
            None => None,
        }
    }

    pub closed spec fn description_view(&self) -> Option<Seq<char>> {
        match self.description {
            Some(d) => Some(d@),
            None => None,
        }
    }

    /// Neither name nor description.
    pub fn new() -> (b: InterfaceBuilder)
        ensures
            b.name_view() is None,
            b.description_view() is None,
    {
        InterfaceBuilder { name: None, description: None }
    }

    pub fn with_name(self, name: &str) -> (b: InterfaceBuilder)
        ensures
            b.name_view() == Some(name@),
            b.description_view() == self.description_view(),
    {
        let mut b = self;
        b.name = Some(String::from_str(name));
        b
    }

    pub fn with_description(self, description: &str) -> (b: InterfaceBuilder)
        ensures
            b.name_view() == self.name_view(),
            b.description_view() == Some(description@),
    {
        let mut b = self;
        b.description = Some(String::from_str(description));
        b
    }

    /// The interface described so far; an error without name.
    pub fn build(self) -> (r: Result<Interface, &'static str>)
        ensures
            match self.name_view() {
                Some(n) => r matches Ok(i) && i.name_view() == n && i.description_view() == self.description_view(),
                None => r matches Err(m) && m@ == interface_name_required_msg(),
            },
    {
        if let Some(name) = self.name {
            Ok(Interface { name, description: self.description })
        } else {
            Err("Interface name is required")
        }
    }
}

/// The element that an interface of topic `topic` adds to the structure of
/// its device: an interface named by the last piece of the topic, with the
/// given tags and no element.
pub fn interface_element(topic: &str, tags: Vec<String>) -> (e: StructuralElement)
    ensures
        e is Interface,
        e.name_view() == split_slash(topic@).last(),
        e matches StructuralElement::Interface(i) && i.tags_view() == tags.deep_view(),
        children(e).len() == 0,
{
    let pieces = crate::text::split_topic(topic);
    proof {
        crate::text::lemma_split_nonempty(topic@);
    }
    let name = pieces[pieces.len() - 1].as_str();
    let i = ElementInterface::new(name, tags);
    proof {
        crate::info::structure::lemma_interface_element_views(i);
    }
    StructuralElement::Interface(i)
}

/// Finishes the building of the interface of topic `topic` and tags `tags`:
/// its element (named by the last piece of the topic, with the tags and no
/// element) is inserted into the structure of its device at `topic`. The
/// insertion succeeds when the topic has one layer, or when its first layer
/// exists and the path meets no attribute; the interface then exists in the
/// structure. On an error the structure is unchanged.
pub fn finish_interface(status: &mut InfoDynamicDeviceStatus, topic: String, tags: Vec<String>) -> (r: Result<(), Error>)
    requires
        topic_well_formed(topic@),
        structure_path_ok(old(status).structure_view().elements_view(), topic_layers(topic@)),
    ensures
        final(status).state_view() == old(status).state_view(),
        final(status).updated_view() == old(status).updated_view(),
        exists|e: StructuralElement| {
            &&& e matches StructuralElement::Interface(i) && i.tags_view() == tags.deep_view()
            &&& e.name_view() == split_slash(topic@).last()
            &&& children(e).len() == 0
            &&& DeviceStructure::insert_post(old(status).structure_view(), final(status).structure_view(), topic@, e, r)
        },
        ({
            let l = topic_layers(topic@);
            let old_e = old(status).structure_view().elements_view();
            r is Ok <==> (l.len() == 1 || (l.len() >= 2 && first_named(old_e, l[0]) >= 0 && !hits_attribute(old_e, l)))
        }),
        r is Ok ==> exists_in(final(status).structure_view().elements_view(), topic_layers(topic@)),
{
    let ghost l = topic_layers(topic@);
    let ghost old_e = status.structure_view().elements_view();
    let e = interface_element(topic.as_str(), tags);
    let ghost ev = e;
    proof {
        let pieces = split_slash(topic@);
        if l.len() >= 1 {
            assert(l.last() == pieces.last());
        }
    }
    let r = status.structure_insert(topic, e);
    proof {
        let new_e = status.structure_view().elements_view();
        if r is Ok {
            if l.len() == 1 {
                lemma_push_inserts(old_e, ev);
                assert(l =~= seq![ev.name_view()]);
            } else if l.len() >= 2 {
                lemma_insert_then_exists(old_e, new_e, l, ev);
            }
        }
    }
    r
}

} // verus!
