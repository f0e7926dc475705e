//! The middleware chain that a server binds to its listening socket.
//!
//! The chain is decided once, at startup: which layers stand around the
//! adapter, in which order, and which I/O backend the outermost one drives.
//! The program that owns the socket builds the runtime's objects from it.

use crate::tower_compat::adapter::TowerHttp;
use vstd::prelude::*;

verus! {

/// How the protocol layer talks to the kernel.
#[derive(Clone, Copy, Debug, PartialEq, Eq, Structural)]
pub enum IoBackend {
    /// Submission queues shared with the kernel.
    IoUring,
    /// Readiness polling, available on every host.
    Portable,
}

/// One layer of the chain.
#[derive(Clone, Copy, Debug, PartialEq, Eq, Structural)]
pub enum Layer {
    /// The adapter around the wrapped service.
    Adapter,
    /// Reports the layer below as ready, always: the adapter is ready from
    /// the moment it exists and has nothing to report call by call.
    UncheckedReady,
    /// Terminates HTTP/1 on the connection, over the given backend.
    Http1(IoBackend),
}

/// The backend for a host: the kernel's submission queues where the host
/// has them, readiness polling otherwise.
pub fn select_backend(io_uring_present: bool) -> (backend: IoBackend)
    ensures
        backend == if io_uring_present {
            IoBackend::IoUring
        } else {
            IoBackend::Portable
        },
{
    if io_uring_present {
        IoBackend::IoUring
    } else {
        IoBackend::Portable
    }
}

/// A composed chain: the factory of the wrapped service and the backend of
/// the protocol layer.
pub struct ServiceChain<F> {
    pub factory: F,
    pub backend: IoBackend,
}

impl<F> ServiceChain<F> {
    /// The layers of the chain, innermost first.
    pub open spec fn spec_layers(&self) -> Seq<Layer> {
        seq![Layer::Adapter, Layer::UncheckedReady, Layer::Http1(self.backend)]
    }

    /// The layers of the chain, innermost first: the adapter, the readiness
    /// layer around it, the protocol layer around both.
    pub fn layers(&self) -> (layers: Vec<Layer>)
        ensures
            layers@ == self.spec_layers(),
    {
        let mut layers: Vec<Layer> = Vec::new();
        layers.push(Layer::Adapter);
        layers.push(Layer::UncheckedReady);
        layers.push(Layer::Http1(self.backend));
        layers
    }
}

impl<S> TowerHttp<S> {
    /// Composes the chain around the adapter that `func` will be asked to
    /// construct a service for, once per worker.
    pub fn service<F>(func: F, io_uring_present: bool) -> (chain: ServiceChain<F>)
        ensures
            chain.factory == func,
            chain.backend == if io_uring_present {
                IoBackend::IoUring
            } else {
                IoBackend::Portable
            },
    {
        ServiceChain { factory: func, backend: select_backend(io_uring_present) }
    }
}

} // verus!
