//! What a service says about itself when it registers, and what it gets
//! back.

use vstd::prelude::*;

verus! {

/// The role of a registering instance.
#[derive(Clone, Copy, Debug, PartialEq, Eq, Structural)]
pub enum ServiceKind {
    /// An edge service that routes outside requests into the cluster.
    Gateway,
}

/// The metadata an instance reports about itself at registration time.
///
/// It is built once from configuration and only read afterwards.
#[derive(Debug, PartialEq, Eq)]
pub struct ServiceDescriptor {
    /// The role of the instance.
    pub kind: ServiceKind,
    /// The network address under which the instance can be reached.
    pub address: String,
    /// The port under which the instance can be reached.
    pub port: u32,
}

/// The mathematical content of a [`ServiceDescriptor`].
pub struct DescriptorView {
    pub kind: ServiceKind,
    pub address: Seq<char>,
    pub port: u32,
}

impl View for ServiceDescriptor {
    type V = DescriptorView;

    open spec fn view(&self) -> DescriptorView {
        DescriptorView { kind: self.kind, address: self.address@, port: self.port }
    }
}

/// The identifier that the discovery service issued to this instance.
///
/// An identity is never empty and never changes once obtained.
#[derive(Debug, PartialEq, Eq)]
pub struct ServiceIdentity {
    id: String,
}

impl View for ServiceIdentity {
    type V = Seq<char>;

    closed spec fn view(&self) -> Seq<char> {
        self.id@
    }
}

impl ServiceIdentity {
    /// What holds of every identity: it is not empty.
    #[verifier::type_invariant]
    pub open spec fn is_non_empty(self) -> bool {
        self@.len() > 0
    }

    /// Wraps an identifier issued by the discovery service; an empty one is
    /// no identity.
    pub fn new(id: String) -> (r: Option<ServiceIdentity>)
        ensures
            id@.len() == 0 <==> r is None,
            r matches Some(identity) ==> identity@ == id@,
    {
        if id.as_str().is_empty() {
            None
        } else {
            Some(ServiceIdentity { id })
        }
    }

    /// The identifier as text.
    pub fn as_str(&self) -> (r: &str)
        ensures
            r@ == self@,
            r@.len() > 0,
    {
        proof {
            use_type_invariant(self);
        }
        self.id.as_str()
    }

    /// The identifier as an owned string.
    pub fn into_string(self) -> (r: String)
        ensures
            r@ == self@,
            r@.len() > 0,
    {
        proof {
            use_type_invariant(&self);
        }
        self.id
    }
}

/// A successful registration: the issued identity together with the
/// connection over which it was obtained.
///
/// The identity means something to the discovery service only on that
/// connection, so the two travel together.
#[derive(Debug)]
pub struct Registration<C> {
    /// The identity issued by the discovery service.
    pub identity: ServiceIdentity,
    /// The connection on which the identity was issued.
    pub connection: C,
}

} // verus!
