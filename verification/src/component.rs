//! The three-level address of a unit of work: namespace, component, endpoint.
//!
//! A namespace hangs below the runtime, a component below a namespace and an
//! endpoint below a component, so no level can be skipped. Every level names
//! itself by one segment; the segments from the root down form the identity
//! of the unit, for discovery and for metrics alike.

use crate::distributed::DistributedRuntime;
use crate::metrics::{identity_path_of, identity_separator, join_segments, MetricsRegistry};
use vstd::prelude::*;
use vstd::std_specs::iter::IteratorSpec;

verus! {

/// Whether `c` may occur in a name: a lower-case ASCII letter, an ASCII digit,
/// `-` or `_`. The separators of paths and keys are not among them.
pub open spec fn is_name_char(c: char) -> bool {
    ('a' <= c && c <= 'z') || ('0' <= c && c <= '9') || c == '-' || c == '_'
}

/// Whether `name` may name a namespace, a component or an endpoint: it is not
/// empty and holds name characters only.
pub open spec fn valid_name(name: Seq<char>) -> bool {
    &&& name.len() > 0
    &&& forall|i: int| 0 <= i < name.len() ==> is_name_char(#[trigger] name[i])
}

/// Why a name was refused.
#[derive(Clone, Copy, Debug, PartialEq, Eq, Structural)]
pub enum NameError {
    /// The name is empty.
    Empty,
    /// The name holds a character that the coordination backend's keys do not
    /// admit.
    InvalidCharacter,
}

/// What the check of `name` answers.
pub open spec fn check_name_spec(name: Seq<char>) -> Result<(), NameError> {
    if name.len() == 0 {
        Err(NameError::Empty)
    } else if valid_name(name) {
        Ok(())
    } else {
        Err(NameError::InvalidCharacter)
    }
}

fn name_char(c: char) -> (ok: bool)
    ensures
        ok == is_name_char(c),
{
    ('a' <= c && c <= 'z') || ('0' <= c && c <= '9') || c == '-' || c == '_'
}

/// Checks that `name` may name a unit of the hierarchy.
pub fn check_name(name: &str) -> (checked: Result<(), NameError>)
    ensures
        checked == check_name_spec(name@),
{
    if name.is_empty() {
        return Err(NameError::Empty);
    }
    let mut chars = name.chars();
    let ghost mut seen: int = 0;
    loop
        invariant
            0 <= seen <= name@.len(),
            chars.remaining() == name@.skip(seen),
            forall|i: int| 0 <= i < seen ==> is_name_char(#[trigger] name@[i]),
            name@.len() > 0,
        decreases name@.len() - seen,
    {
        match chars.next() {
            Some(c) => {
                assert(c == name@[seen]);
                if !name_char(c) {
                    return Err(NameError::InvalidCharacter);
                }
                proof {
                    assert(name@.skip(seen).drop_first() =~= name@.skip(seen + 1));
                    seen = seen + 1;
                }
            },
            None => {
                assert(seen == name@.len());
                return Ok(());
            },
        }
    }
}


fn same_segments(left: &Vec<String>, right: &Vec<String>) -> (same: bool)
    ensures
        same == (left.deep_view() == right.deep_view()),
{
    if left.len() != right.len() {
        assert(left.deep_view().len() != right.deep_view().len());
        return false;
    }
    let mut i: usize = 0;
    while i < left.len()
        invariant
            i <= left.len(),
            left.len() == right.len(),
            forall|j: int| 0 <= j < i ==> left.deep_view()[j] == right.deep_view()[j],
        decreases left.len() - i,
    {
        if left[i] != right[i] {
            assert(left.deep_view()[i as int] != right.deep_view()[i as int]);
            return false;
        }
        i += 1;
    }
    assert(left.deep_view() =~= right.deep_view());
    true
}

/// A namespace: the first level below the runtime.
#[derive(Debug)]
pub struct Namespace {
    name: String,
    is_static: bool,
    parents: Vec<String>,
}

/// What a [`Namespace`] holds.
pub struct NamespaceView {
    pub name: Seq<char>,
    /// Whether units below this namespace stay out of discovery.
    pub is_static: bool,
    /// The segments above the namespace, from the root down.
    pub parents: Seq<Seq<char>>,
}

impl View for Namespace {
    type V = NamespaceView;

    closed spec fn view(&self) -> NamespaceView {
        NamespaceView {
            name: self.name@,
            is_static: self.is_static,
            parents: self.parents.deep_view(),
        }
    }
}

impl NamespaceView {
    /// The namespace has a valid name and hangs directly below the root.
    pub open spec fn wf(self) -> bool {
        &&& valid_name(self.name)
        &&& self.parents == crate::distributed::root_segments()
    }
}

impl Namespace {
    /// The namespace `name` below `runtime`. The name is refused if it is
    /// empty or holds a character that is no name character.
    pub fn new(runtime: &DistributedRuntime, name: &str, is_static: bool) -> (created: Result<
        Namespace,
        NameError,
    >)
        ensures
            match created {
                Ok(namespace) => {
                    &&& check_name_spec(name@) is Ok
                    &&& namespace@ == (NamespaceView {
                        name: name@,
                        is_static,
                        parents: runtime.parent_hierarchy_spec().push(runtime.basename_spec()),
                    })
                    &&& namespace@.wf()
                },
                Err(error) => check_name_spec(name@) == Err::<(), NameError>(error),
            },
    {
        match check_name(name) {
            Ok(()) => {
                let mut parents = runtime.parent_hierarchy();
                let ghost above = parents.deep_view();
                parents.push(runtime.basename());
                assert(parents.deep_view() =~= above.push(runtime.basename_spec()));
                Ok(Namespace { name: String::from_str(name), is_static, parents })
            },
            Err(error) => Err(error),
        }
    }

    /// The namespace's name.
    pub fn name(&self) -> (name: String)
        ensures
            name@ == self@.name,
    {
        self.name.clone()
    }

    /// Whether units below this namespace stay out of discovery.
    pub fn is_static(&self) -> (is_static: bool)
        ensures
            is_static == self@.is_static,
    {
        self.is_static
    }

    /// Whether `self` and `other` are the same namespace: the same name,
    /// below the same root, in the same mode.
    pub fn same_as(&self, other: &Namespace) -> (same: bool)
        ensures
            same == (self@ == other@),
    {
        self.name == other.name && self.is_static == other.is_static && same_segments(
            &self.parents,
            &other.parents,
        )
    }

    /// The component `name` of this namespace.
    pub fn component(&self, name: &str) -> (created: Result<Component, NameError>)
        ensures
            match created {
                Ok(component) => {
                    &&& check_name_spec(name@) is Ok
                    &&& component@ == (ComponentView { namespace: self@, name: name@ })
                },
                Err(error) => check_name_spec(name@) == Err::<(), NameError>(error),
            },
    {
        Component::new(self.clone(), name)
    }
}

impl Clone for Namespace {
    fn clone(&self) -> (copy: Namespace)
        ensures
            copy@ == self@,
    {
        let parents = self.parents.clone();
        assert(parents.deep_view() =~= self.parents.deep_view());
        Namespace { name: self.name.clone(), is_static: self.is_static, parents }
    }
}

impl MetricsRegistry for Namespace {
    open spec fn basename_spec(&self) -> Seq<char> {
        self@.name
    }

    open spec fn parent_hierarchy_spec(&self) -> Seq<Seq<char>> {
        self@.parents
    }

    fn basename(&self) -> (name: String) {
        self.name.clone()
    }

    fn parent_hierarchy(&self) -> (names: Vec<String>) {
        let names = self.parents.clone();
        assert(names.deep_view() =~= self.parents.deep_view());
        names
    }
}

/// A component: the second level, below a namespace.
#[derive(Debug)]
pub struct Component {
    namespace: Namespace,
    name: String,
}

/// What a [`Component`] holds.
pub struct ComponentView {
    pub namespace: NamespaceView,
    pub name: Seq<char>,
}

impl View for Component {
    type V = ComponentView;

    closed spec fn view(&self) -> ComponentView {
        ComponentView { namespace: self.namespace@, name: self.name@ }
    }
}

impl ComponentView {
    /// The component and its namespace have valid names.
    pub open spec fn wf(self) -> bool {
        &&& valid_name(self.name)
        &&& self.namespace.wf()
    }
}

impl Component {
    /// The component `name` of `namespace`. The name is refused if it is empty
    /// or holds a character that is no name character.
    pub fn new(namespace: Namespace, name: &str) -> (created: Result<Component, NameError>)
        ensures
            match created {
                Ok(component) => {
                    &&& check_name_spec(name@) is Ok
                    &&& component@ == (ComponentView { namespace: namespace@, name: name@ })
                },
                Err(error) => check_name_spec(name@) == Err::<(), NameError>(error),
            },
    {
        match check_name(name) {
            Ok(()) => Ok(Component { namespace, name: String::from_str(name) }),
            Err(error) => Err(error),
        }
    }

    /// The component's name.
    pub fn name(&self) -> (name: String)
        ensures
            name@ == self@.name,
    {
        self.name.clone()
    }

    /// The namespace the component belongs to.
    pub fn namespace(&self) -> (namespace: &Namespace)
        ensures
            namespace@ == self@.namespace,
    {
        &self.namespace
    }

    /// Whether `self` and `other` are the same component: the same name in
    /// the same namespace.
    pub fn same_as(&self, other: &Component) -> (same: bool)
        ensures
            same == (self@ == other@),
    {
        self.name == other.name && self.namespace.same_as(&other.namespace)
    }

    /// The endpoint `name` of this component.
    pub fn endpoint(&self, name: &str) -> (created: Result<Endpoint, NameError>)
        ensures
            match created {
                Ok(endpoint) => {
                    &&& check_name_spec(name@) is Ok
                    &&& endpoint@ == (EndpointView { component: self@, name: name@ })
                },
                Err(error) => check_name_spec(name@) == Err::<(), NameError>(error),
            },
    {
        Endpoint::new(self.clone(), name)
    }
}

impl Clone for Component {
    fn clone(&self) -> (copy: Component)
        ensures
            copy@ == self@,
    {
        Component { namespace: self.namespace.clone(), name: self.name.clone() }
    }
}

impl MetricsRegistry for Component {
    open spec fn basename_spec(&self) -> Seq<char> {
        self@.name
    }

    open spec fn parent_hierarchy_spec(&self) -> Seq<Seq<char>> {
        self@.namespace.parents.push(self@.namespace.name)
    }

    fn basename(&self) -> (name: String) {
        self.name.clone()
    }

    fn parent_hierarchy(&self) -> (names: Vec<String>) {
        let mut names = self.namespace.parent_hierarchy();
        let ghost above = names.deep_view();
        names.push(self.namespace.basename());
        assert(names.deep_view() =~= above.push(self@.namespace.name));
        names
    }
}

/// An endpoint: the leaf level, below a component. It is the unit that an
/// instance serves.
#[derive(Debug)]
pub struct Endpoint {
    component: Component,
    name: String,
}

/// What an [`Endpoint`] holds.
pub struct EndpointView {
    pub component: ComponentView,
    pub name: Seq<char>,
}

impl View for Endpoint {
    type V = EndpointView;

    closed spec fn view(&self) -> EndpointView {
        EndpointView { component: self.component@, name: self.name@ }
    }
}

impl EndpointView {
    /// The endpoint, its component and its namespace have valid names.
    pub open spec fn wf(self) -> bool {
        &&& valid_name(self.name)
        &&& self.component.wf()
    }
}

impl Endpoint {
    /// The endpoint `name` of `component`. The name is refused if it is empty
    /// or holds a character that is no name character.
    pub fn new(component: Component, name: &str) -> (created: Result<Endpoint, NameError>)
        ensures
            match created {
                Ok(endpoint) => {
                    &&& check_name_spec(name@) is Ok
                    &&& endpoint@ == (EndpointView { component: component@, name: name@ })
                },
                Err(error) => check_name_spec(name@) == Err::<(), NameError>(error),
            },
    {
        match check_name(name) {
            Ok(()) => Ok(Endpoint { component, name: String::from_str(name) }),
            Err(error) => Err(error),
        }
    }

    /// The endpoint's name.
    pub fn name(&self) -> (name: String)
        ensures
            name@ == self@.name,
    {
        self.name.clone()
    }

    /// The component the endpoint belongs to.
    pub fn component(&self) -> (component: &Component)
        ensures
            component@ == self@.component,
    {
        &self.component
    }

    /// Whether `self` and `other` are the same address: the same names at
    /// every level, below the same root, in the same mode.
    pub fn same_as(&self, other: &Endpoint) -> (same: bool)
        ensures
            same == (self@ == other@),
    {
        self.name == other.name && self.component.same_as(&other.component)
    }
}

impl Clone for Endpoint {
    fn clone(&self) -> (copy: Endpoint)
        ensures
            copy@ == self@,
    {
        Endpoint { component: self.component.clone(), name: self.name.clone() }
    }
}

impl MetricsRegistry for Endpoint {
    open spec fn basename_spec(&self) -> Seq<char> {
        self@.name
    }

    open spec fn parent_hierarchy_spec(&self) -> Seq<Seq<char>> {
        self@.component.namespace.parents.push(self@.component.namespace.name).push(
            self@.component.name,
        )
    }

    fn basename(&self) -> (name: String) {
        self.name.clone()
    }

    fn parent_hierarchy(&self) -> (names: Vec<String>) {
        let mut names = self.component.parent_hierarchy();
        let ghost above = names.deep_view();
        names.push(self.component.basename());
        assert(names.deep_view() =~= above.push(self@.component.name));
        names
    }
}

spec fn listed(components: Seq<Component>, component: ComponentView) -> bool {
    exists|i: int| 0 <= i < components.len() && #[trigger] components[i]@ == component
}

spec fn listed_once(components: Seq<Component>) -> bool {
    forall|i: int, j: int|
        0 <= i < j < components.len() ==> #[trigger] components[i]@ != #[trigger] components[j]@
}

spec fn listed_set(components: Seq<Component>) -> Set<ComponentView> {
    Set::new(|component: ComponentView| listed(components, component))
}

proof fn lemma_listed_counted(components: Seq<Component>)
    requires
        listed_once(components),
    ensures
        listed_set(components).finite(),
        listed_set(components).len() == components.len(),
    decreases components.len(),
{
    if components.len() == 0 {
        assert(listed_set(components) =~= Set::<ComponentView>::empty());
    } else {
        let front = components.drop_last();
        let last = components.last();
        assert forall|i: int, j: int| 0 <= i < j < front.len() implies #[trigger] front[i]@
            != #[trigger] front[j]@ by {
            assert(components[i]@ != components[j]@);
        }
        lemma_listed_counted(front);
        if listed(front, last@) {
            let i = choose|i: int| 0 <= i < front.len() && #[trigger] front[i]@ == last@;
            assert(components[i]@ != components[components.len() - 1]@);
        }
        assert forall|component: ComponentView| #[trigger]
            listed_set(components).contains(component) == listed_set(front).insert(
                last@,
            ).contains(component) by {
            if listed(front, component) {
                let i = choose|i: int| 0 <= i < front.len() && #[trigger] front[i]@ == component;
                assert(components[i]@ == component);
            }
            if component == last@ {
                assert(components[components.len() - 1]@ == component);
            }
            if listed(components, component) {
                let i = choose|i: int|
                    0 <= i < components.len() && #[trigger] components[i]@ == component;
                if i < front.len() {
                    assert(front[i]@ == component);
                }
            }
        }
        assert(listed_set(components) =~= listed_set(front).insert(last@));
    }
}

/// The components that were claimed in a runtime. A component is listed at
/// most once, so that no two units below one namespace bear the same name.
pub struct Registry {
    components: Vec<Component>,
}

impl View for Registry {
    type V = Set<ComponentView>;

    closed spec fn view(&self) -> Set<ComponentView> {
        listed_set(self.components@)
    }
}

impl Registry {
    #[verifier::type_invariant]
    spec fn inv(self) -> bool {
        listed_once(self.components@)
    }

    /// A registry without components.
    pub fn new() -> (registry: Registry)
        ensures
            registry@ == Set::<ComponentView>::empty(),
    {
        let registry = Registry { components: Vec::new() };
        assert(registry@ =~= Set::<ComponentView>::empty());
        registry
    }

    /// Whether `component` is listed.
    pub fn contains(&self, component: &Component) -> (listed: bool)
        ensures
            listed == self@.contains(component@),
    {
        let mut i: usize = 0;
        while i < self.components.len()
            invariant
                i <= self.components.len(),
                forall|j: int| 0 <= j < i ==> #[trigger] self.components@[j]@ != component@,
            decreases self.components.len() - i,
        {
            if self.components[i].same_as(component) {
                return true;
            }
            i += 1;
        }
        false
    }

    /// Lists `component`, unless a component of that name in that namespace
    /// is listed already. Returns whether it was listed by this call.
    pub fn register(&mut self, component: Component) -> (registered: bool)
        ensures
            registered == !old(self)@.contains(component@),
            final(self)@ == old(self)@.insert(component@),
    {
        proof {
            use_type_invariant(&*self);
        }
        if self.contains(&component) {
            assert(final(self)@ =~= old(self)@.insert(component@));
            false
        } else {
            let ghost before = self.components@;
            let mut components: Vec<Component> = Vec::new();
            core::mem::swap(&mut self.components, &mut components);
            components.push(component);
            proof {
                let after = components@;
                assert forall|i: int, j: int| 0 <= i < j < after.len() implies #[trigger] after[i]@
                    != #[trigger] after[j]@ by {
                    if j < before.len() {
                        assert(before[i]@ != before[j]@);
                    } else {
                        assert(before[i]@ == after[i]@);
                    }
                }
                assert forall|c: ComponentView| #[trigger]
                    listed_set(after).contains(c) == listed_set(before).insert(
                        component@,
                    ).contains(c) by {
                    if listed(before, c) {
                        let i = choose|i: int| 0 <= i < before.len() && #[trigger] before[i]@ == c;
                        assert(after[i]@ == c);
                    }
                    if c == component@ {
                        assert(after[before.len() as int]@ == c);
                    }
                    if listed(after, c) {
                        let i = choose|i: int| 0 <= i < after.len() && #[trigger] after[i]@ == c;
                        if i < before.len() {
                            assert(before[i]@ == c);
                        }
                    }
                }
                assert(listed_set(after) =~= listed_set(before).insert(component@));
            }
            self.components = components;
            true
        }
    }

    /// How many components are listed.
    pub fn len(&self) -> (len: usize)
        ensures
            self@.finite(),
            len == self@.len(),
    {
        proof {
            use_type_invariant(self);
            lemma_listed_counted(self.components@);
        }
        self.components.len()
    }
}

/// Along a chain of namespace, component and endpoint with valid names, every
/// level's ancestors are the segments from the root down to its parent, the
/// root's own segment being empty, and its identity path is the names from the
/// namespace down to the level itself, with a dot between each two.
pub proof fn lemma_identity_path_follows_the_chain(endpoint: Endpoint)
    requires
        endpoint@.wf(),
    ensures
        ({
            let namespace = endpoint@.component.namespace.name;
            let component = endpoint@.component.name;
            let name = endpoint@.name;
            let dot = seq!['.'];
            &&& endpoint.parent_hierarchy_spec() == seq![Seq::<char>::empty(), namespace, component]
            &&& endpoint.basename_spec() == name
            &&& identity_path_of(seq![Seq::<char>::empty()], namespace) == namespace
            &&& identity_path_of(seq![Seq::<char>::empty(), namespace], component) == namespace
                + dot + component
            &&& identity_path_of(endpoint.parent_hierarchy_spec(), endpoint.basename_spec())
                == namespace + dot + component + dot + name
        }),
{
    let namespace = endpoint@.component.namespace.name;
    let component = endpoint@.component.name;
    let name = endpoint@.name;
    let root = Seq::<char>::empty();
    let dot = identity_separator();
    let one = seq![root];
    let two = seq![root, namespace];
    let three = seq![root, namespace, component];
    let four = seq![root, namespace, component, name];
    assert(endpoint.parent_hierarchy_spec() =~= three);
    assert(one.drop_last() =~= Seq::<Seq<char>>::empty());
    assert(two.drop_last() =~= one);
    assert(three.drop_last() =~= two);
    assert(four.drop_last() =~= three);
    assert(one.push(namespace) =~= two);
    assert(two.push(component) =~= three);
    assert(three.push(name) =~= four);
    assert(join_segments(Seq::<Seq<char>>::empty(), dot) =~= Seq::<char>::empty());
    assert(join_segments(one, dot) =~= Seq::<char>::empty());
    assert(join_segments(two, dot) =~= namespace);
    assert(join_segments(three, dot) =~= namespace + dot + component);
    assert(join_segments(four, dot) =~= namespace + dot + component + dot + name);
}

proof fn lemma_dotted_split(
    first: Seq<char>,
    rest: Seq<char>,
    other_first: Seq<char>,
    other_rest: Seq<char>,
)
    requires
        valid_name(first),
        valid_name(other_first),
        first + seq!['.'] + rest == other_first + seq!['.'] + other_rest,
    ensures
        first == other_first,
        rest == other_rest,
{
    let dot = seq!['.'];
    let left = first + dot + rest;
    let right = other_first + dot + other_rest;
    assert(left.len() == first.len() + 1 + rest.len());
    assert(right.len() == other_first.len() + 1 + other_rest.len());
    if first.len() < other_first.len() {
        assert(left[first.len() as int] == '.');
        assert(right[first.len() as int] == other_first[first.len() as int]);
        assert(is_name_char(other_first[first.len() as int]));
    } else if other_first.len() < first.len() {
        assert(right[other_first.len() as int] == '.');
        assert(left[other_first.len() as int] == first[other_first.len() as int]);
        assert(is_name_char(first[other_first.len() as int]));
    }
    assert forall|i: int| 0 <= i < first.len() implies first[i] == other_first[i] by {
        assert(left[i] == first[i]);
        assert(right[i] == other_first[i]);
    }
    assert(first =~= other_first);
    assert forall|i: int| 0 <= i < rest.len() implies rest[i] == other_rest[i] by {
        assert(left[first.len() + 1 + i] == rest[i]);
        assert(right[first.len() + 1 + i] == other_rest[i]);
    }
    assert(rest =~= other_rest);
}

/// The identity path names one endpoint only: two endpoints with valid names
/// whose paths are equal bear the same names at every level. Keys built from
/// the path are therefore unique across the cluster.
pub proof fn lemma_identity_path_is_unique(endpoint: Endpoint, other: Endpoint)
    requires
        endpoint@.wf(),
        other@.wf(),
        identity_path_of(endpoint.parent_hierarchy_spec(), endpoint.basename_spec())
            == identity_path_of(other.parent_hierarchy_spec(), other.basename_spec()),
    ensures
        endpoint@.component.namespace.name == other@.component.namespace.name,
        endpoint@.component.name == other@.component.name,
        endpoint@.name == other@.name,
{
    lemma_identity_path_follows_the_chain(endpoint);
    lemma_identity_path_follows_the_chain(other);
    let dot = seq!['.'];
    let rest = endpoint@.component.name + dot + endpoint@.name;
    let other_rest = other@.component.name + dot + other@.name;
    assert(endpoint@.component.namespace.name + dot + endpoint@.component.name + dot
        + endpoint@.name =~= endpoint@.component.namespace.name + dot + rest);
    assert(other@.component.namespace.name + dot + other@.component.name + dot + other@.name
        =~= other@.component.namespace.name + dot + other_rest);
    lemma_dotted_split(
        endpoint@.component.namespace.name,
        rest,
        other@.component.namespace.name,
        other_rest,
    );
    lemma_dotted_split(
        endpoint@.component.name,
        endpoint@.name,
        other@.component.name,
        other@.name,
    );
}

} // verus!
