//! The namespaces of remote methods.
pub mod debug;
pub mod platon;
pub mod platon_subscribe;

use crate::transport::Transport;
use vstd::prelude::*;

verus! {

/// A group of remote methods, over a connection of its own.
pub trait Namespace<T: Transport>: Sized {
    /// The connection that the requests of this namespace go over. An
    /// implementor states it.
    open spec fn link(&self) -> T {
        arbitrary()
    }

    /// The namespace over `transport`.
    fn new(transport: T) -> (namespace: Self)
        ensures
            namespace.link() == transport,
    ;

    /// The connection.
    fn transport(&self) -> (transport: &T)
        ensures
            *transport == self.link(),
    ;

    /// The connection, to poll the calls and streams that were started
    /// over it.
    fn transport_mut(&mut self) -> (transport: &mut T)
        ensures
            *transport == old(self).link(),
            final(self).link() == *final(transport),
    ;
}

} // verus!
