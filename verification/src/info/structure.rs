//! The structure of a device: a tree of interfaces and attributes addressed by
//! topics of the form `namespace/pza/host/device/layer/...`.
use vstd::prelude::*;
use crate::error::Error;
use crate::text::{split_slash, split_topic, join_topic, join_slash, index_of, lemma_index_of, lemma_index_of_first};

verus! {

/// Position of the first `pza` piece of a split topic, or -1.
pub open spec fn pza_index(pieces: Seq<Seq<char>>) -> int {
    index_of(pieces, "pza"@)
}

/// A topic that `Topic::from_string` accepts: it holds a `pza` piece followed
/// by at least a host and a device piece.
pub open spec fn topic_well_formed(topic: Seq<char>) -> bool {
    let pieces = split_slash(topic);
    pza_index(pieces) >= 0 && pza_index(pieces) + 3 <= pieces.len()
}

/// The layers of a well formed topic: the pieces after the device piece.
pub open spec fn topic_layers(topic: Seq<char>) -> Seq<Seq<char>> {
    let pieces = split_slash(topic);
    pieces.subrange(pza_index(pieces) + 3, pieces.len() as int)
}

/// A topic broken down into its parts.
pub struct Topic {
    pub namespace: String,
    pub host: String,
    pub device: String,
    pub layers: Vec<String>,
}

impl Topic {
    /// Breaks `topic` down: the pieces before the first `pza` joined with `/`
    /// form the namespace, the two pieces after it are the host and the
    /// device, and the remaining pieces are the layers.
    pub fn from_string(topic: &str) -> (t: Topic)
        requires
            topic_well_formed(topic@),
        ensures
            ({
                let pieces = split_slash(topic@);
                let p = pza_index(pieces);
                &&& t.namespace@ == join_slash(pieces.subrange(0, p))
                &&& t.host@ == pieces[p + 1]
                &&& t.device@ == pieces[p + 2]
                &&& t.layers.deep_view() == topic_layers(topic@)
            }),
    {
        let pieces = split_topic(topic);
        let ghost view = pieces.deep_view();
        proof {
            lemma_index_of(view, "pza"@);
        }
        let pza = String::from_str("pza");
        let n = pieces.len();
        let mut p: usize = 0;
        while pieces[p] != pza
            invariant
                p <= pza_index(view),
                pieces.deep_view() == view,
                view.len() == pieces@.len(),
                n == view.len(),
                pza_index(view) + 3 <= view.len(),
                pza@ == "pza"@,
                forall|j: int| 0 <= j < pza_index(view) ==> view[j] != "pza"@,
                view[pza_index(view)] == "pza"@,
            decreases pza_index(view) - p,
        {
            assert(view[p as int] == pieces@[p as int]@);
            p = p + 1;
        }
        assert(view[p as int] == pieces@[p as int]@);
        assert(p == pza_index(view));
        let namespace = join_topic(&pieces, 0, p);
        let host = pieces[p + 1].clone();
        let device = pieces[p + 2].clone();
        let mut layers: Vec<String> = Vec::new();
        let mut i = p + 3;
        while i < pieces.len()
            invariant
                p + 3 <= i <= pieces.len(),
                pieces.deep_view() == view,
                layers.deep_view() == view.subrange(p + 3, i as int),
            decreases pieces.len() - i,
        {
            let layer = pieces[i].clone();
            let ghost before = layers.deep_view();
            assert(layer@ == view[i as int]);
            layers.push(layer);
            assert(layers.deep_view() =~= before.push(view[i as int]));
            assert(layers.deep_view() =~= view.subrange(p + 3, i + 1));
            i = i + 1;
        }
        Topic { namespace, host, device, layers }
    }
}

/// How an attribute exchanges data.
#[derive(Debug, Clone, Copy, PartialEq, Eq, Structural)]
pub enum AttributeMode {
    AttOnly,
    CmdOnly,
    Bidir,
}

/// A leaf of the structure.
pub struct ElementAttribute {
    name: String,
    typee: String,
    mode: AttributeMode,
}

/// A node of the structure, which holds further elements.
pub struct ElementInterface {
    name: String,
    tags: Vec<String>,
    elements: Vec<StructuralElement>,
}

/// Element at the basis of device structure.
pub enum StructuralElement {
    Attribute(ElementAttribute),
    Interface(ElementInterface),
}

impl ElementAttribute {
    pub closed spec fn name_view(&self) -> Seq<char> {
        self.name@
    }

    pub closed spec fn typee_view(&self) -> Seq<char> {
        self.typee@
    }

    pub closed spec fn mode_view(&self) -> AttributeMode {
        self.mode
    }

    /// A new attribute.
    pub fn new(name: &str, typee: &str, mode: AttributeMode) -> (a: Self)
        ensures
            a.name_view() == name@,
            a.typee_view() == typee@,
            a.mode_view() == mode,
    {
        Self { name: String::from_str(name), typee: String::from_str(typee), mode }
    }

    pub fn name(&self) -> (n: &String)
        ensures
            n@ == self.name_view(),
    {
        &self.name
    }

    pub fn typee(&self) -> (t: &String)
        ensures
            t@ == self.typee_view(),
    {
        &self.typee
    }

    pub fn mode(&self) -> (m: &AttributeMode)
        ensures
            *m == self.mode_view(),
    {
        &self.mode
    }

    /// An attribute holds no element: the answer is always `false`.
    pub fn is_element_exist(&self, layers: Vec<String>) -> (r: Result<bool, Error>)
        ensures
            r matches Ok(b) && !b,
    {
        Ok(false)
    }
}

impl StructuralElement {
    pub closed spec fn name_view(&self) -> Seq<char> {
        match self {
            StructuralElement::Attribute(a) => a.name@,
            StructuralElement::Interface(i) => i.name@,
        }
    }

    pub fn name(&self) -> (n: &String)
        ensures
            n@ == self.name_view(),
    {
        match self {
            StructuralElement::Attribute(a) => &a.name,
            StructuralElement::Interface(i) => &i.name,
        }
    }

    /// Inserts `element` at the end of the path `layers` below this element;
    /// an attribute cannot hold one.
    pub fn insert(&mut self, layers: Vec<String>, element: StructuralElement) -> (r: Result<(), Error>)
        requires
            *old(self) is Interface ==> descend_ok(children(*old(self)), layers.deep_view()),
        ensures
            match *old(self) {
                StructuralElement::Attribute(_) => {
                    &&& r matches Err(Error::InternalLogic(m)) && m@ == attribute_holds_nothing_msg()
                    &&& *final(self) == *old(self)
                },
                StructuralElement::Interface(o) => match *final(self) {
                    StructuralElement::Interface(n) => interface_insert_post(o, n, layers.deep_view(), element, r),
                    _ => false,
                },
            },
        decreases layers.len(), 1int,
    {
        match self {
            StructuralElement::Attribute(_) => Err(
                Error::InternalLogic(String::from_str("Cannot insert an element inside an Attribute")),
            ),
            StructuralElement::Interface(interface) => interface.insert(layers, element),
        }
    }

    /// Whether the path `layers` below this element ends on an element; an
    /// attribute holds none.
    pub fn is_element_exist(&self, layers: Vec<String>) -> (r: Result<bool, Error>)
        requires
            self is Interface ==> descend_ok(children(*self), layers.deep_view()),
        ensures
            self is Attribute ==> r == Ok::<bool, Error>(false),
            self is Interface && layers.len() == 0 ==> r matches Err(Error::Wtf),
            self is Interface && layers.len() > 0 ==> r == Ok::<bool, Error>(exists_in(children(*self), layers.deep_view())),
        decreases layers.len(), 1int,
    {
        match self {
            StructuralElement::Attribute(a) => a.is_element_exist(layers),
            StructuralElement::Interface(i) => i.is_element_exist(layers),
        }
    }
}

/// The names of a list of elements.
pub closed spec fn names(elems: Seq<StructuralElement>) -> Seq<Seq<char>> {
    Seq::new(elems.len(), |i: int| elems[i].name_view())
}

/// Position of the first element named `name`, or -1.
pub closed spec fn first_named(elems: Seq<StructuralElement>, name: Seq<char>) -> int {
    index_of(names(elems), name)
}

/// The elements held by an element: those of an interface, none for an attribute.
pub closed spec fn children(e: StructuralElement) -> Seq<StructuralElement> {
    match e {
        StructuralElement::Attribute(_) => Seq::empty(),
        StructuralElement::Interface(i) => i.elements@,
    }
}

/// Whether the path `layers`, followed from the list `elems` through the first
/// element of each name, ends on an element: the meaning of `is_element_exist`.
pub closed spec fn exists_in(elems: Seq<StructuralElement>, layers: Seq<Seq<char>>) -> bool
    decreases layers.len(),
{
    if layers.len() == 0 {
        false
    } else if layers.len() == 1 {
        names(elems).contains(layers[0])
    } else {
        let k = first_named(elems, layers[0]);
        k >= 0 && match elems[k] {
            StructuralElement::Attribute(_) => false,
            StructuralElement::Interface(i) => exists_in(i.elements@, layers.drop_first()),
        }
    }
}

/// Every intermediate layer of `layers` is found where an interface descends
/// into it (an interface panics on a missing intermediate layer).
pub closed spec fn descend_ok(elems: Seq<StructuralElement>, layers: Seq<Seq<char>>) -> bool
    decreases layers.len(),
{
    layers.len() >= 2 ==> {
        let k = first_named(elems, layers[0]);
        k >= 0 && match elems[k] {
            StructuralElement::Attribute(_) => true,
            StructuralElement::Interface(i) => descend_ok(i.elements@, layers.drop_first()),
        }
    }
}

/// At the top of a structure a missing first layer is an error, not a
/// panic; the layers below it must be found.
pub closed spec fn structure_path_ok(elems: Seq<StructuralElement>, layers: Seq<Seq<char>>) -> bool {
    layers.len() >= 2 && first_named(elems, layers[0]) >= 0 ==> match elems[first_named(elems, layers[0])] {
        StructuralElement::Attribute(_) => true,
        StructuralElement::Interface(i) => descend_ok(i.elements@, layers.drop_first()),
    }
}

/// The path `layers` below `elems`, followed through the first element of
/// each name, meets an attribute before its last layer.
pub closed spec fn hits_attribute(elems: Seq<StructuralElement>, layers: Seq<Seq<char>>) -> bool
    decreases layers.len(),
{
    layers.len() >= 2 && {
        let k = first_named(elems, layers[0]);
        k >= 0 && match elems[k] {
            StructuralElement::Attribute(_) => true,
            StructuralElement::Interface(i) => hits_attribute(i.elements@, layers.drop_first()),
        }
    }
}

/// `new` is `old` with `element` appended at the end of the path `layers`,
/// every other element left as it was.
pub closed spec fn inserted(
    old: Seq<StructuralElement>,
    new: Seq<StructuralElement>,
    layers: Seq<Seq<char>>,
    element: StructuralElement,
) -> bool
    decreases layers.len(),
{
    if layers.len() == 1 {
        new == old.push(element)
    } else if layers.len() >= 2 {
        let k = first_named(old, layers[0]);
        &&& 0 <= k < old.len()
        &&& new.len() == old.len()
        &&& forall|j: int| 0 <= j < old.len() && j != k ==> new[j] == old[j]
        &&& match (old[k], new[k]) {
            (StructuralElement::Interface(a), StructuralElement::Interface(b)) => {
                &&& b.name@ == a.name@
                &&& b.tags.deep_view() == a.tags.deep_view()
                &&& inserted(a.elements@, b.elements@, layers.drop_first(), element)
            },
            _ => false,
        }
    } else {
        false
    }
}

/// What `ElementInterface::insert` leaves: the interface keeps its name and
/// tags; no layer is an error; a path that meets an attribute is an error
/// that changes nothing; otherwise the element is inserted.
pub closed spec fn interface_insert_post(
    old: ElementInterface,
    new: ElementInterface,
    layers: Seq<Seq<char>>,
    element: StructuralElement,
    r: Result<(), Error>,
) -> bool {
    &&& new.name@ == old.name@
    &&& new.tags.deep_view() == old.tags.deep_view()
    &&& layers.len() == 0 ==> (r matches Err(Error::Generic(m)) && m@ == "layer name not found 2"@)
        && new == old
    &&& hits_attribute(old.elements@, layers) ==> (r matches Err(Error::InternalLogic(m)) && m@
        == attribute_holds_nothing_msg()) && new == old
    &&& layers.len() >= 1 && !hits_attribute(old.elements@, layers) ==> r is Ok && inserted(
        old.elements@,
        new.elements@,
        layers,
        element,
    )
}

/// The message of an insertion below an attribute.
pub open spec fn attribute_holds_nothing_msg() -> Seq<char> {
    "Cannot insert an element inside an Attribute"@
}

/// Whether following `layers[from..]` from `elems` meets an attribute before
/// the last layer.
fn path_meets_attribute(elems: &Vec<StructuralElement>, layers: &Vec<String>, from: usize) -> (b: bool)
    requires
        from <= layers.len(),
        descend_ok(elems@, layers.deep_view().skip(from as int)),
    ensures
        b == hits_attribute(elems@, layers.deep_view().skip(from as int)),
    decreases layers.len() - from,
{
    let ghost l = layers.deep_view().skip(from as int);
    if layers.len() - from < 2 {
        return false;
    }
    assert(l[0] == layers@[from as int]@);
    proof {
        lemma_index_of(names(elems@), l[0]);
    }
    let k = position_of(elems, layers[from].as_str());
    let k = k.unwrap();
    match &elems[k] {
        StructuralElement::Attribute(_) => true,
        StructuralElement::Interface(i) => {
            assert(layers.deep_view().skip(from + 1) =~= l.drop_first());
            path_meets_attribute(&i.elements, layers, from + 1)
        },
    }
}

/// Whether following `layers[from..]` from `elems` finds every intermediate
/// layer where an interface descends into it.
fn path_descends(elems: &Vec<StructuralElement>, layers: &Vec<String>, from: usize) -> (b: bool)
    requires
        from <= layers.len(),
    ensures
        b == descend_ok(elems@, layers.deep_view().skip(from as int)),
    decreases layers.len() - from,
{
    let ghost l = layers.deep_view().skip(from as int);
    if layers.len() - from < 2 {
        return true;
    }
    assert(l[0] == layers@[from as int]@);
    proof {
        lemma_index_of(names(elems@), l[0]);
    }
    assert(names(elems@).len() == elems@.len());
    match position_of(elems, layers[from].as_str()) {
        None => false,
        Some(k) => match &elems[k] {
            StructuralElement::Attribute(_) => true,
            StructuralElement::Interface(i) => {
                assert(layers.deep_view().skip(from + 1) =~= l.drop_first());
                path_descends(&i.elements, layers, from + 1)
            },
        },
    }
}

/// Whether `topic` holds a `pza` piece followed by a host and a device piece.
pub fn topic_is_well_formed(topic: &str) -> (b: bool)
    ensures
        b == topic_well_formed(topic@),
{
    let pieces = split_topic(topic);
    let ghost view = pieces.deep_view();
    proof {
        lemma_index_of(view, "pza"@);
    }
    let pza = String::from_str("pza");
    let mut p: usize = 0;
    while p < pieces.len()
        invariant
            p <= pieces@.len(),
            pieces.deep_view() == view,
            view.len() == pieces@.len(),
            pza@ == "pza"@,
            view == split_slash(topic@),
            forall|j: int| 0 <= j < p ==> view[j] != "pza"@,
        decreases pieces@.len() - p,
    {
        assert(view[p as int] == pieces@[p as int]@);
        if pieces[p] == pza {
            assert(view[p as int] == "pza"@);
            proof {
                lemma_index_of_first(view, "pza"@, p as int);
            }
            return pieces.len() - p >= 3;
        }
        p = p + 1;
    }
    false
}

/// Looks for `name` among `elems`; returns the first position that holds it.
fn position_of(elems: &Vec<StructuralElement>, name: &str) -> (r: Option<usize>)
    ensures
        match r {
            Some(k) => k == first_named(elems@, name@),
            None => first_named(elems@, name@) < 0,
        },
{
    proof {
        lemma_index_of(names(elems@), name@);
    }
    let mut i: usize = 0;
    while i < elems.len()
        invariant
            i <= elems.len(),
            forall|j: int| 0 <= j < i ==> names(elems@)[j] != name@,
        decreases elems.len() - i,
    {
        assert(names(elems@)[i as int] == elems@[i as int].name_view());
        if elems[i].name().as_str().eq(name) {
            proof {
                lemma_index_of_first(names(elems@), name@, i as int);
            }
            return Some(i);
        }
        i = i + 1;
    }
    proof {
        if names(elems@).contains(name@) {
            let j = choose|j: int| 0 <= j < names(elems@).len() && names(elems@)[j] == name@;
            assert(names(elems@)[j] != name@);
        }
    }
    None
}

impl ElementInterface {
    pub closed spec fn name_view(&self) -> Seq<char> {
        self.name@
    }

    pub closed spec fn tags_view(&self) -> Seq<Seq<char>> {
        self.tags.deep_view()
    }

    /// The elements directly below this interface.
    pub closed spec fn elements_view(&self) -> Seq<StructuralElement> {
        self.elements@
    }

    /// A new interface without elements.
    pub fn new(name: &str, tags: Vec<String>) -> (i: Self)
        ensures
            i.name_view() == name@,
            i.tags_view() == tags.deep_view(),
            i.elements_view().len() == 0,
    {
        Self { name: String::from_str(name), tags, elements: Vec::new() }
    }

    pub fn tags(&self) -> (t: &Vec<String>)
        ensures
            t.deep_view() == self.tags_view(),
    {
        &self.tags
    }

    pub fn name(&self) -> (n: &String)
        ensures
            n@ == self.name_view(),
    {
        &self.name
    }

    /// The first element named `name`; it must be there.
    pub fn find_layer(&self, name: &str) -> (e: &StructuralElement)
        requires
            first_named(self.elements_view(), name@) >= 0,
        ensures
            *e == self.elements_view()[first_named(self.elements_view(), name@)],
    {
        proof {
            lemma_index_of(names(self.elements@), name@);
        }
        let k = position_of(&self.elements, name);
        &self.elements[k.unwrap()]
    }

    /// The first element named `name`, to be changed in place; it must be there.
    pub fn find_layer_mut(&mut self, name: &str) -> (e: &mut StructuralElement)
        requires
            first_named(old(self).elements_view(), name@) >= 0,
        ensures
            *e == old(self).elements_view()[first_named(old(self).elements_view(), name@)],
            final(self).elements_view() == old(self).elements_view().update(
                first_named(old(self).elements_view(), name@),
                *final(e),
            ),
            final(self).name_view() == old(self).name_view(),
            final(self).tags_view() == old(self).tags_view(),
    {
        proof {
            lemma_index_of(names(self.elements@), name@);
        }
        let k = position_of(&self.elements, name);
        let k = k.unwrap();
        &mut self.elements[k]
    }

    /// Inserts `element` at the end of the path `layers` below this interface:
    /// with one layer the element is appended here (whatever its name), with
    /// more the first element named like the first layer receives the rest.
    pub fn insert(&mut self, layers: Vec<String>, element: StructuralElement) -> (r: Result<(), Error>)
        requires
            descend_ok(old(self).elements_view(), layers.deep_view()),
        ensures
            interface_insert_post(*old(self), *final(self), layers.deep_view(), element, r),
        decreases layers.len(), 0int,
    {
        let ghost l = layers.deep_view();
        if layers.len() == 1 {
            let ghost old_elems = self.elements@;
            self.elements.push(element);
            assert(inserted(old_elems, self.elements@, l, element));
            Ok(())
        } else if layers.len() == 0 {
            let m = String::from_str("layer name not found 2");
            assert(m@ == "layer name not found 2"@);
            Err(Error::Generic(m))
        } else {
            proof {
                lemma_index_of(names(self.elements@), l[0]);
            }
            assert(layers.deep_view().skip(0) =~= l);
            if path_meets_attribute(&self.elements, &layers, 0) {
                let m = String::from_str("Cannot insert an element inside an Attribute");
                assert(m@ == attribute_holds_nothing_msg());
                return Err(Error::InternalLogic(m));
            }
            let ghost old_elems = self.elements@;
            let ghost k = first_named(old_elems, l[0]);
            let n = layers[0].clone();
            let mut new_layers = layers;
            new_layers.remove(0);
            assert(new_layers.deep_view() =~= l.drop_first());
            let sublayer = self.find_layer_mut(n.as_str());
            let r = sublayer.insert(new_layers, element);
            proof {
                let new_elems = self.elements@;
                assert(new_elems == old_elems.update(k, new_elems[k]));
                assert(inserted(old_elems, new_elems, l, element));
            }
            r
        }
    }

    /// Whether the path `layers` below this interface ends on an element.
    pub fn is_element_exist(&self, layers: Vec<String>) -> (r: Result<bool, Error>)
        requires
            descend_ok(self.elements_view(), layers.deep_view()),
        ensures
            layers.len() == 0 ==> r matches Err(Error::Wtf),
            layers.len() > 0 ==> r == Ok::<bool, Error>(exists_in(self.elements_view(), layers.deep_view())),
        decreases layers.len(), 0int,
    {
        let ghost l = layers.deep_view();
        if layers.len() == 1 {
            let name = layers[0].as_str();
            let k = position_of(&self.elements, name);
            proof {
                lemma_index_of(names(self.elements@), l[0]);
            }
            Ok(k.is_some())
        } else if layers.len() == 0 {
            Err(Error::Wtf)
        } else {
            proof {
                lemma_index_of(names(self.elements@), l[0]);
            }
            let sublayer = self.find_layer(layers[0].as_str());
            assert(*sublayer is Interface ==> descend_ok(children(*sublayer), l.drop_first()));
            let mut new_la = layers;
            new_la.remove(0);
            assert(new_la.deep_view() =~= l.drop_first());
            sublayer.is_element_exist(new_la)
        }
    }
}

} // verus!

verus! {

/// Meta structure of a device: the elements at its top.
pub struct DeviceStructure {
    elements: Vec<StructuralElement>,
}

/// The message for a first layer that `is_element_exist` cannot find.
pub open spec fn layer_not_found_msg(name: Seq<char>) -> Seq<char> {
    "layer '"@ + name + "' not found"@
}

/// The message for a first layer that `insert` cannot find.
pub open spec fn cannot_find_layer_msg(name: Seq<char>) -> Seq<char> {
    "#0001 Cannot find layer '"@ + name + "'"@
}

/// The message for an element whose name is not the last layer of its topic.
pub open spec fn name_mismatch_msg(element: Seq<char>, layer: Seq<char>) -> Seq<char> {
    "Element that need to be inserted does not match the topic name "@ + element + " ! "@ + layer
}

/// `a + b + c` as one string.
fn concat3(a: &str, b: &str, c: &str) -> (s: String)
    ensures
        s@ == a@ + b@ + c@,
{
    let mut s = String::from_str(a);
    s.append(b);
    s.append(c);
    s
}

impl DeviceStructure {
    /// What `insert` leaves: an empty path is an error; at the top the
    /// element's name must match the layer, below the first layer must exist
    /// and the path must not meet an attribute; on an error the structure is
    /// unchanged, otherwise the element is inserted.
    pub open spec fn insert_post(
        old: DeviceStructure,
        new: DeviceStructure,
        topic: Seq<char>,
        element: StructuralElement,
        r: Result<(), Error>,
    ) -> bool {
        let l = topic_layers(topic);
        let old_e = old.elements_view();
        let new_e = new.elements_view();
        let k = first_named(old_e, l[0]);
        &&& l.len() == 0 ==> (r matches Err(Error::Wtf)) && new == old
        &&& l.len() == 1 && element.name_view() != l[0] ==> (r matches Err(Error::InternalLogic(m)) && m@
            == name_mismatch_msg(element.name_view(), l[0])) && new == old
        &&& l.len() == 1 && element.name_view() == l[0] ==> r is Ok && new_e == old_e.push(element)
        &&& l.len() >= 2 && k < 0 ==> (r matches Err(Error::InternalLogic(m)) && m@ == cannot_find_layer_msg(
            l[0],
        )) && new == old
        &&& l.len() >= 2 && hits_attribute(old_e, l) ==> (r matches Err(Error::InternalLogic(m)) && m@
            == attribute_holds_nothing_msg()) && new_e == old_e
        &&& l.len() >= 2 && k >= 0 && !hits_attribute(old_e, l) ==> r is Ok && inserted(old_e, new_e, l, element)
    }

    /// The elements at the top of the structure.
    pub closed spec fn elements_view(&self) -> Seq<StructuralElement> {
        self.elements@
    }

    /// An empty structure.
    pub fn new() -> (s: Self)
        ensures
            s.elements_view().len() == 0,
    {
        DeviceStructure { elements: Vec::new() }
    }

    /// Whether a top element is named `name`.
    pub fn is_element_exist_from_name(&self, name: &str) -> (r: Result<bool, Error>)
        ensures
            r == Ok::<bool, Error>(names(self.elements_view()).contains(name@)),
    {
        proof {
            lemma_index_of(names(self.elements@), name@);
        }
        let k = position_of(&self.elements, name);
        Ok(k.is_some())
    }

    /// The first top element named `name`, if any.
    pub fn find_layer(&self, name: &str) -> (e: Option<&StructuralElement>)
        ensures
            match e {
                Some(x) => first_named(self.elements_view(), name@) >= 0
                    && *x == self.elements_view()[first_named(self.elements_view(), name@)],
                None => first_named(self.elements_view(), name@) < 0,
            },
    {
        proof {
            lemma_index_of(names(self.elements@), name@);
        }
        match position_of(&self.elements, name) {
            Some(k) => Some(&self.elements[k]),
            None => None,
        }
    }

    /// The first top element named `name`, if any, to be changed in place.
    pub fn find_layer_mut(&mut self, name: &str) -> (e: Option<&mut StructuralElement>)
        ensures
            match e {
                Some(x) => {
                    &&& first_named(old(self).elements_view(), name@) >= 0
                    &&& *x == old(self).elements_view()[first_named(old(self).elements_view(), name@)]
                    &&& final(self).elements_view() == old(self).elements_view().update(
                        first_named(old(self).elements_view(), name@),
                        *final(x),
                    )
                },
                None => first_named(old(self).elements_view(), name@) < 0 && *final(self) == *old(self),
            },
    {
        proof {
            lemma_index_of(names(self.elements@), name@);
        }
        match position_of(&self.elements, name) {
            Some(k) => Some(&mut self.elements[k]),
            None => None,
        }
    }

    /// Whether the element addressed by `topic` exists. A missing first layer
    /// is an error; a path that meets an attribute answers `false`.
    pub fn is_element_exist(&self, topic: &str) -> (r: Result<bool, Error>)
        requires
            topic_well_formed(topic@),
            structure_path_ok(self.elements_view(), topic_layers(topic@)),
        ensures
            ({
                let l = topic_layers(topic@);
                let k = first_named(self.elements_view(), l[0]);
                &&& l.len() == 0 ==> (r matches Err(Error::Wtf))
                &&& l.len() >= 2 && k < 0 ==> (r matches Err(Error::InternalLogic(m)) && m@
                    == layer_not_found_msg(l[0]))
                &&& (l.len() == 1 || (l.len() >= 2 && k >= 0)) ==> r == Ok::<bool, Error>(
                    exists_in(self.elements_view(), l),
                )
            }),
    {
        let t = Topic::from_string(topic);
        let layers = t.layers;
        let ghost l = layers.deep_view();
        if layers.len() == 1 {
            self.is_element_exist_from_name(layers[0].as_str())
        } else if layers.len() == 0 {
            Err(Error::Wtf)
        } else {
            let name = layers[0].as_str();
            match self.find_layer(name) {
                None => Err(Error::InternalLogic(concat3("layer '", name, "' not found"))),
                Some(sublayer) => {
                    let mut new_la = layers;
                    new_la.remove(0);
                    assert(new_la.deep_view() =~= l.drop_first());
                    sublayer.is_element_exist(new_la)
                },
            }
        }
    }

    /// Whether `insert` and `is_element_exist` accept `topic`: it is well
    /// formed, and below its first layer every intermediate layer is found.
    pub fn accepts_topic(&self, topic: &str) -> (b: bool)
        ensures
            b == (topic_well_formed(topic@) && structure_path_ok(self.elements_view(), topic_layers(topic@))),
    {
        if !topic_is_well_formed(topic) {
            return false;
        }
        let t = Topic::from_string(topic);
        let layers = t.layers;
        let ghost l = layers.deep_view();
        if layers.len() < 2 {
            return true;
        }
        proof {
            lemma_index_of(names(self.elements@), l[0]);
        }
        match position_of(&self.elements, layers[0].as_str()) {
            None => true,
            Some(k) => match &self.elements[k] {
                StructuralElement::Attribute(_) => true,
                StructuralElement::Interface(i) => {
                    assert(layers.deep_view().skip(1) =~= l.drop_first());
                    path_descends(&i.elements, &layers, 1)
                },
            },
        }
    }

    /// Inserts `element` at the place addressed by `topic`. At the top the
    /// element's name must be the layer; below, the first layer must exist.
    pub fn insert(&mut self, topic: String, element: StructuralElement) -> (r: Result<(), Error>)
        requires
            topic_well_formed(topic@),
            structure_path_ok(old(self).elements_view(), topic_layers(topic@)),
        ensures
            DeviceStructure::insert_post(*old(self), *final(self), topic@, element, r),
    {
        let t = Topic::from_string(topic.as_str());
        let mut layers = t.layers;
        let ghost l = layers.deep_view();
        if layers.len() == 1 {
            let layer_name = layers[0].clone();
            if !layer_name.eq(element.name()) {
                let mut m = concat3(
                    "Element that need to be inserted does not match the topic name ",
                    element.name().as_str(),
                    " ! ",
                );
                m.append(layer_name.as_str());
                return Err(Error::InternalLogic(m));
            }
            self.elements.push(element);
        } else if layers.len() == 0 {
            return Err(Error::Wtf);
        } else {
            let sub_layer_name = layers[0].clone();
            let ghost old_elems = self.elements@;
            let ghost k = first_named(old_elems, l[0]);
            proof {
                lemma_index_of(names(self.elements@), l[0]);
            }
            match position_of(&self.elements, sub_layer_name.as_str()) {
                None => {
                    return Err(
                        Error::InternalLogic(concat3("#0001 Cannot find layer '", sub_layer_name.as_str(), "'")),
                    );
                },
                Some(pos) => {
                    layers.remove(0);
                    assert(layers.deep_view() =~= l.drop_first());
                    let sublayer = &mut self.elements[pos];
                    let r = sublayer.insert(layers, element);
                    proof {
                        let new_elems = self.elements@;
                        assert(new_elems == old_elems.update(k, new_elems[k]));
                        match old_elems[k] {
                            StructuralElement::Attribute(_) => {
                                assert(new_elems =~= old_elems);
                            },
                            StructuralElement::Interface(_) => {
                                if hits_attribute(old_elems, l) {
                                    assert(new_elems =~= old_elems);
                                }
                            },
                        }
                    }
                    if r.is_err() {
                        return r;
                    }
                },
            }
        }
        Ok(())
    }
}

} // verus!

verus! {

pub proof fn lemma_names_push(elems: Seq<StructuralElement>, e: StructuralElement)
    ensures
        names(elems.push(e)) == names(elems).push(e.name_view()),
{
    assert(names(elems.push(e)) =~= names(elems).push(e.name_view()));
}

/// Appending keeps the position of the first occurrence of a name already present.
pub proof fn lemma_first_named_push(elems: Seq<StructuralElement>, e: StructuralElement, name: Seq<char>)
    requires
        first_named(elems, name) >= 0,
    ensures
        first_named(elems.push(e), name) == first_named(elems, name),
{
    lemma_names_push(elems, e);
    let s = names(elems);
    lemma_index_of(s, name);
    let k = index_of(s, name);
    assert(s.push(e.name_view())[k] == name);
    assert forall|j: int| 0 <= j < k implies s.push(e.name_view())[j] != name by {
        assert(s.push(e.name_view())[j] == s[j]);
    }
    lemma_index_of_first(s.push(e.name_view()), name, k);
}

/// An insertion below the top keeps the names of the top elements.
pub proof fn lemma_inserted_names(
    old: Seq<StructuralElement>,
    new: Seq<StructuralElement>,
    layers: Seq<Seq<char>>,
    element: StructuralElement,
)
    requires
        inserted(old, new, layers, element),
        layers.len() >= 2,
    ensures
        names(new) == names(old),
{
    assert(names(new) =~= names(old));
}

/// Law: an element inserted at the end of a path is found at that path,
/// provided it bears the name of the path's last layer.
pub proof fn lemma_insert_then_exists(
    old: Seq<StructuralElement>,
    new: Seq<StructuralElement>,
    layers: Seq<Seq<char>>,
    element: StructuralElement,
)
    requires
        inserted(old, new, layers, element),
        element.name_view() == layers.last(),
    ensures
        exists_in(new, layers),
    decreases layers.len(),
{
    if layers.len() == 1 {
        lemma_names_push(old, element);
        assert(names(new)[old.len() as int] == layers[0]);
    } else {
        lemma_inserted_names(old, new, layers, element);
        let k = first_named(old, layers[0]);
        match (old[k], new[k]) {
            (StructuralElement::Interface(a), StructuralElement::Interface(b)) => {
                lemma_insert_then_exists(a.elements@, b.elements@, layers.drop_first(), element);
            },
            _ => {},
        }
    }
}

/// Law: an insertion keeps every element that existed before it.
pub proof fn lemma_insert_keeps_existing(
    old: Seq<StructuralElement>,
    new: Seq<StructuralElement>,
    layers: Seq<Seq<char>>,
    element: StructuralElement,
    path: Seq<Seq<char>>,
)
    requires
        inserted(old, new, layers, element),
        exists_in(old, path),
    ensures
        exists_in(new, path),
    decreases path.len(),
{
    if layers.len() == 1 {
        lemma_names_push(old, element);
        if path.len() == 1 {
            let j = choose|j: int| 0 <= j < names(old).len() && names(old)[j] == path[0];
            assert(names(new)[j] == path[0]);
        } else {
            lemma_index_of(names(old), path[0]);
            lemma_first_named_push(old, element, path[0]);
            let kp = first_named(old, path[0]);
            assert(new[kp] == old[kp]);
        }
    } else {
        lemma_inserted_names(old, new, layers, element);
        lemma_index_of(names(old), path[0]);
        lemma_index_of(names(old), layers[0]);
        if path.len() >= 2 {
            let kp = first_named(old, path[0]);
            let k = first_named(old, layers[0]);
            if kp == k {
                match (old[k], new[k]) {
                    (StructuralElement::Interface(a), StructuralElement::Interface(b)) => {
                        lemma_insert_keeps_existing(
                            a.elements@,
                            b.elements@,
                            layers.drop_first(),
                            element,
                            path.drop_first(),
                        );
                    },
                    _ => {},
                }
            } else {
                assert(new[kp] == old[kp]);
            }
        }
    }
}

} // verus!

verus! {

/// An interface element bears the name of its interface and holds its elements.
pub proof fn lemma_interface_element_views(i: ElementInterface)
    ensures
        StructuralElement::Interface(i).name_view() == i.name_view(),
        children(StructuralElement::Interface(i)) == i.elements_view(),
{
}

/// An attribute element bears the name of its attribute and holds nothing.
pub proof fn lemma_attribute_element_views(a: ElementAttribute)
    ensures
        StructuralElement::Attribute(a).name_view() == a.name_view(),
        children(StructuralElement::Attribute(a)) == Seq::<StructuralElement>::empty(),
{
}


/// A path of at most one layer needs no intermediate layer: every structure
/// accepts it, and it meets no attribute.
pub proof fn lemma_short_path_ok(elems: Seq<StructuralElement>, layers: Seq<Seq<char>>)
    requires
        layers.len() <= 1,
    ensures
        structure_path_ok(elems, layers),
        descend_ok(elems, layers),
        !hits_attribute(elems, layers),
{
}

/// An empty list of elements holds no name: every path is accepted and none
/// exists in it.
pub proof fn lemma_empty_elements(elems: Seq<StructuralElement>, layers: Seq<Seq<char>>, name: Seq<char>)
    requires
        elems.len() == 0,
    ensures
        names(elems) == Seq::<Seq<char>>::empty(),
        first_named(elems, name) < 0,
        structure_path_ok(elems, layers),
        !exists_in(elems, layers),
{
    assert(names(elems) =~= Seq::<Seq<char>>::empty());
    lemma_index_of(names(elems), name);
    if layers.len() >= 1 {
        lemma_index_of(names(elems), layers[0]);
    }
}

/// Appending an element adds its name at the end, is the insertion of that
/// element at the one-layer path of its name, and makes that path exist.
pub proof fn lemma_push_inserts(old: Seq<StructuralElement>, element: StructuralElement)
    ensures
        names(old.push(element)) == names(old).push(element.name_view()),
        inserted(old, old.push(element), seq![element.name_view()], element),
        exists_in(old.push(element), seq![element.name_view()]),
{
    lemma_names_push(old, element);
    lemma_insert_then_exists(old, old.push(element), seq![element.name_view()], element);
}

/// What the names of a list are, and what the position of the first element
/// of a name tells: it is -1 exactly when no element has the name, else it
/// holds an element of that name and no earlier element does; a one-layer
/// path exists exactly when an element has its name.
pub proof fn lemma_first_named(elems: Seq<StructuralElement>, name: Seq<char>)
    ensures
        names(elems).len() == elems.len(),
        forall|i: int| 0 <= i < elems.len() ==> #[trigger] names(elems)[i] == elems[i].name_view(),
        -1 <= first_named(elems, name) < elems.len(),
        first_named(elems, name) >= 0 ==> elems[first_named(elems, name)].name_view() == name,
        forall|j: int| 0 <= j < first_named(elems, name) ==> #[trigger] elems[j].name_view() != name,
        first_named(elems, name) < 0 <==> !names(elems).contains(name),
        exists_in(elems, seq![name]) <==> first_named(elems, name) >= 0,
{
    lemma_index_of(names(elems), name);
    assert forall|j: int| 0 <= j < first_named(elems, name) implies #[trigger] elems[j].name_view() != name by {
        assert(names(elems)[j] == elems[j].name_view());
    }
    assert(seq![name][0] == name);
}

/// After appending an element, the first element of its name is found.
pub proof fn lemma_push_found(old: Seq<StructuralElement>, element: StructuralElement)
    ensures
        first_named(old.push(element), element.name_view()) >= 0,
        first_named(old, element.name_view()) >= 0 ==> first_named(old.push(element), element.name_view())
            == first_named(old, element.name_view()),
{
    lemma_names_push(old, element);
    lemma_index_of(names(old.push(element)), element.name_view());
    assert(names(old.push(element))[old.len() as int] == element.name_view());
    if first_named(old, element.name_view()) >= 0 {
        lemma_first_named_push(old, element, element.name_view());
    }
}

/// Law: an element exists at a path only where every layer names an element
/// among the children of the element reached by the layers before it: the
/// first layer names a top element, and each further layer names a child of
/// the interface reached so far.
pub proof fn lemma_exists_needs_named_children(elems: Seq<StructuralElement>, layers: Seq<Seq<char>>)
    requires
        exists_in(elems, layers),
    ensures
        layers.len() >= 1,
        names(elems).contains(layers[0]),
        layers.len() >= 2 ==> ({
            let k = first_named(elems, layers[0]);
            &&& 0 <= k < elems.len()
            &&& elems[k].name_view() == layers[0]
            &&& elems[k] is Interface
            &&& children(elems[k]).len() > 0
            &&& names(children(elems[k])).contains(layers[1])
            &&& exists_in(children(elems[k]), layers.drop_first())
        }),
    decreases layers.len(),
{
    lemma_index_of(names(elems), layers[0]);
    if layers.len() >= 2 {
        let k = first_named(elems, layers[0]);
        assert(names(elems)[k] == elems[k].name_view());
        match elems[k] {
            StructuralElement::Interface(i) => {
                lemma_exists_needs_named_children(i.elements@, layers.drop_first());
                assert(layers.drop_first()[0] == layers[1]);
            },
            StructuralElement::Attribute(_) => {},
        }
    }
}

/// Law: a path that goes through an interface holding no element to a
/// further layer does not exist, and neither does one that goes through an
/// attribute.
pub proof fn lemma_no_path_through_empty_interface(elems: Seq<StructuralElement>, layers: Seq<Seq<char>>)
    requires
        layers.len() >= 2,
        first_named(elems, layers[0]) >= 0,
        children(elems[first_named(elems, layers[0])]).len() == 0,
    ensures
        !exists_in(elems, layers),
{
    if exists_in(elems, layers) {
        lemma_exists_needs_named_children(elems, layers);
    }
}

/// Law: a one-layer path exists exactly when a top element bears its name.
pub proof fn lemma_one_layer_exists(elems: Seq<StructuralElement>, name: Seq<char>)
    ensures
        exists_in(elems, seq![name]) <==> exists|j: int| 0 <= j < elems.len() && #[trigger] elems[j].name_view() == name,
{
    assert(seq![name][0] == name);
    if exists_in(elems, seq![name]) {
        let j = choose|j: int| 0 <= j < names(elems).len() && names(elems)[j] == name;
        assert(elems[j].name_view() == name);
    }
    if exists|j: int| 0 <= j < elems.len() && #[trigger] elems[j].name_view() == name {
        let j = choose|j: int| 0 <= j < elems.len() && #[trigger] elems[j].name_view() == name;
        assert(names(elems)[j] == name);
    }
}

} // verus!
