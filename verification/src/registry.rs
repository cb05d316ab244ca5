use vstd::prelude::*;
use crate::errors::Error;
use crate::interface::{Interface, InterfacePlan, InterfaceView};
use crate::link::{Link, LinkView};
use crate::namespace::{Namespace, NamespacePlan, NamespaceView};

verus! {

pub open spec fn has_namespace_name(s: Seq<NamespaceView>, name: Seq<char>) -> bool {
    exists|i: int| 0 <= i < s.len() && s[i].name == name
}

pub open spec fn has_link_name(s: Seq<LinkView>, name: Seq<char>) -> bool {
    exists|i: int| 0 <= i < s.len() && s[i].name == name
}

pub open spec fn has_interface_name(s: Seq<InterfaceView>, name: Seq<char>) -> bool {
    exists|i: int| 0 <= i < s.len() && s[i].name == name
}

pub open spec fn distinct_namespace_names(s: Seq<NamespaceView>) -> bool {
    forall|i: int, j: int| 0 <= i < j < s.len() ==> s[i].name != s[j].name
}

pub open spec fn distinct_link_names(s: Seq<LinkView>) -> bool {
    forall|i: int, j: int| 0 <= i < j < s.len() ==> s[i].name != s[j].name
}

pub open spec fn distinct_interface_names(s: Seq<InterfaceView>) -> bool {
    forall|i: int, j: int| 0 <= i < j < s.len() ==> s[i].name != s[j].name
}

/// Law: name uniqueness for namespaces. Once a namespace is registered its
/// name is present, so by the creation contract a second attempt under the
/// same name yields `NameConflict` and is handed no command plan.
pub proof fn lemma_registered_namespace_conflicts(s: Seq<NamespaceView>, v: NamespaceView)
    ensures
        has_namespace_name(s.push(v), v.name),
{
    assert(s.push(v)[s.len() as int] == v);
}

/// Law: name uniqueness for links, as for namespaces.
pub proof fn lemma_registered_link_conflicts(s: Seq<LinkView>, v: LinkView)
    ensures
        has_link_name(s.push(v), v.name),
{
    assert(s.push(v)[s.len() as int] == v);
}

/// Law: name uniqueness for interfaces, as for namespaces. In particular a
/// link attached twice between the same namespaces re-derives the same
/// device names, and the repeated attach fails on the interface
/// registration with `NameConflict`.
pub proof fn lemma_registered_interface_conflicts(s: Seq<InterfaceView>, v: InterfaceView)
    ensures
        has_interface_name(s.push(v), v.name),
{
    assert(s.push(v)[s.len() as int] == v);
}

/// The registry of every provisioned entity. It is the single holder of
/// the canonical namespace, link and interface records, keyed by name,
/// and it is consulted before any externally visible side effect so that
/// a duplicate name never re-issues a configuration command.
pub struct Config {
    namespaces: Vec<Namespace>,
    links: Vec<Link>,
    interfaces: Vec<Interface>,
}

#[verifier::ext_equal]
pub struct ConfigView {
    pub namespaces: Seq<NamespaceView>,
    pub links: Seq<LinkView>,
    pub interfaces: Seq<InterfaceView>,
}

impl View for Config {
    type V = ConfigView;

    closed spec fn view(&self) -> ConfigView {
        ConfigView {
            namespaces: self.namespaces.deep_view(),
            links: self.links.deep_view(),
            interfaces: self.interfaces.deep_view(),
        }
    }
}

impl Config {
    /// Within each kind, no two registered entities share a name.
    pub open spec fn wf(&self) -> bool {
        &&& distinct_namespace_names(self@.namespaces)
        &&& distinct_link_names(self@.links)
        &&& distinct_interface_names(self@.interfaces)
    }

    /// An empty registry.
    pub fn new() -> (c: Config)
        ensures
            c.wf(),
            c@.namespaces == Seq::<NamespaceView>::empty(),
            c@.links == Seq::<LinkView>::empty(),
            c@.interfaces == Seq::<InterfaceView>::empty(),
    {
        let c = Config { namespaces: Vec::new(), links: Vec::new(), interfaces: Vec::new() };
        proof {
            assert(c@.namespaces =~= Seq::<NamespaceView>::empty());
            assert(c@.links =~= Seq::<LinkView>::empty());
            assert(c@.interfaces =~= Seq::<InterfaceView>::empty());
        }
        c
    }

    pub fn contains_namespace(&self, name: &String) -> (r: bool)
        ensures
            r == has_namespace_name(self@.namespaces, name@),
    {
        let n = self.namespaces.len();
        let mut k: usize = 0;
        while k < n
            invariant
                n == self.namespaces.len(),
                k <= n,
                forall|j: int| 0 <= j < k ==> self@.namespaces[j].name != name@,
            decreases n - k,
        {
            if self.namespaces[k].name == *name {
                proof {
                    assert(self@.namespaces[k as int].name == name@);
                }
                return true;
            }
            k = k + 1;
        }
        false
    }

    pub fn contains_link(&self, name: &String) -> (r: bool)
        ensures
            r == has_link_name(self@.links, name@),
    {
        let n = self.links.len();
        let mut k: usize = 0;
        while k < n
            invariant
                n == self.links.len(),
                k <= n,
                forall|j: int| 0 <= j < k ==> self@.links[j].name != name@,
            decreases n - k,
        {
            if self.links[k].name == *name {
                proof {
                    assert(self@.links[k as int].name == name@);
                }
                return true;
            }
            k = k + 1;
        }
        false
    }

    pub fn contains_interface(&self, name: &String) -> (r: bool)
        ensures
            r == has_interface_name(self@.interfaces, name@),
    {
        let n = self.interfaces.len();
        let mut k: usize = 0;
        while k < n
            invariant
                n == self.interfaces.len(),
                k <= n,
                forall|j: int| 0 <= j < k ==> self@.interfaces[j].name != name@,
            decreases n - k,
        {
            if self.interfaces[k].name == *name {
                proof {
                    assert(self@.interfaces[k as int].name == name@);
                }
                return true;
            }
            k = k + 1;
        }
        false
    }

    /// Registers a fully created namespace. To be called once every command
    /// of its plan has succeeded; a duplicate name is refused and the
    /// registry is left unchanged.
    pub fn commit_namespace(&mut self, plan: NamespacePlan) -> (r: Result<Namespace, Error>)
        requires
            old(self).wf(),
        ensures
            final(self).wf(),
            match r {
                Ok(handle) => {
                    &&& !has_namespace_name(old(self)@.namespaces, plan.namespace@.name)
                    &&& handle@ == plan.namespace@
                    &&& final(self)@.namespaces == old(self)@.namespaces.push(plan.namespace@)
                    &&& final(self)@.links == old(self)@.links
                    &&& final(self)@.interfaces == old(self)@.interfaces
                },
                Err(e) => {
                    &&& has_namespace_name(old(self)@.namespaces, plan.namespace@.name)
                    &&& match e {
                        Error::NameConflict { name } => name@ == plan.namespace@.name,
                        _ => false,
                    }
                    &&& final(self)@ == old(self)@
                },
            },
    {
        if self.contains_namespace(&plan.namespace.name) {
            return Err(Error::NameConflict { name: plan.namespace.name });
        }
        let handle = plan.namespace.dup();
        proof {
            let s = self@.namespaces;
            let v = plan.namespace@;
            assert forall|i: int, j: int| 0 <= i < j < s.push(v).len() implies s.push(v)[i].name
                != s.push(v)[j].name by {
                if j < s.len() {
                    assert(s.push(v)[i] == s[i] && s.push(v)[j] == s[j]);
                } else {
                    assert(s.push(v)[i] == s[i] && s.push(v)[j] == v);
                }
            }
        }
        self.namespaces.push(plan.namespace);
        proof {
            assert(self@.namespaces =~= old(self)@.namespaces.push(plan.namespace@));
        }
        Ok(handle)
    }

    /// Registers a fully provisioned interface. To be called once every
    /// command of its plan has succeeded; a duplicate name is refused and
    /// the registry is left unchanged.
    pub fn commit_interface(&mut self, plan: InterfacePlan) -> (r: Result<Interface, Error>)
        requires
            old(self).wf(),
        ensures
            final(self).wf(),
            match r {
                Ok(handle) => {
                    &&& !has_interface_name(old(self)@.interfaces, plan.iface@.name)
                    &&& handle@ == plan.iface@
                    &&& final(self)@.interfaces == old(self)@.interfaces.push(plan.iface@)
                    &&& final(self)@.links == old(self)@.links
                    &&& final(self)@.namespaces == old(self)@.namespaces
                },
                Err(e) => {
                    &&& has_interface_name(old(self)@.interfaces, plan.iface@.name)
                    &&& match e {
                        Error::NameConflict { name } => name@ == plan.iface@.name,
                        _ => false,
                    }
                    &&& final(self)@ == old(self)@
                },
            },
    {
        if self.contains_interface(&plan.iface.name) {
            return Err(Error::NameConflict { name: plan.iface.name });
        }
        let handle = plan.iface.dup();
        proof {
            let s = self@.interfaces;
            let v = plan.iface@;
            assert forall|i: int, j: int| 0 <= i < j < s.push(v).len() implies s.push(v)[i].name
                != s.push(v)[j].name by {
                if j < s.len() {
                    assert(s.push(v)[i] == s[i] && s.push(v)[j] == s[j]);
                } else {
                    assert(s.push(v)[i] == s[i] && s.push(v)[j] == v);
                }
            }
        }
        self.interfaces.push(plan.iface);
        proof {
            assert(self@.interfaces =~= old(self)@.interfaces.push(plan.iface@));
        }
        Ok(handle)
    }

    /// Registers a link. A link issues no commands of its own, so it is
    /// registered as soon as its name proves free.
    pub(crate) fn register_link(&mut self, link: Link) -> (r: Result<Link, Error>)
        requires
            old(self).wf(),
        ensures
            final(self).wf(),
            match r {
                Ok(handle) => {
                    &&& !has_link_name(old(self)@.links, link@.name)
                    &&& handle@ == link@
                    &&& final(self)@.links == old(self)@.links.push(link@)
                    &&& final(self)@.namespaces == old(self)@.namespaces
                    &&& final(self)@.interfaces == old(self)@.interfaces
                },
                Err(e) => {
                    &&& has_link_name(old(self)@.links, link@.name)
                    &&& match e {
                        Error::NameConflict { name } => name@ == link@.name,
                        _ => false,
                    }
                    &&& final(self)@ == old(self)@
                },
            },
    {
        if self.contains_link(&link.name) {
            return Err(Error::NameConflict { name: link.name });
        }
        let handle = link.dup();
        proof {
            let s = self@.links;
            let v = link@;
            assert forall|i: int, j: int| 0 <= i < j < s.push(v).len() implies s.push(v)[i].name
                != s.push(v)[j].name by {
                if j < s.len() {
                    assert(s.push(v)[i] == s[i] && s.push(v)[j] == s[j]);
                } else {
                    assert(s.push(v)[i] == s[i] && s.push(v)[j] == v);
                }
            }
        }
        self.links.push(link);
        proof {
            assert(self@.links =~= old(self)@.links.push(link@));
        }
        Ok(handle)
    }
}

} // verus!
