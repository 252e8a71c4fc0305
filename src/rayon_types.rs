use vstd::prelude::*;

verus! {

/// rayon's pool handle: opaque here, carried by the registry.
#[verifier::external_type_specification]
#[verifier::external_body]
pub struct ExThreadPool(rayon::ThreadPool);

/// The start-up of one rayon worker: opaque, consumed by running it.
#[verifier::external_type_specification]
#[verifier::external_body]
pub struct ExThreadBuilder(rayon::ThreadBuilder);

/// The error of rayon's pool construction.
#[verifier::external_type_specification]
#[verifier::external_body]
pub struct ExThreadPoolBuildError(rayon::ThreadPoolBuildError);

/// The producer side of an spmc channel.
#[verifier::external_type_specification]
#[verifier::external_body]
#[verifier::reject_recursive_types(T)]
pub struct ExSender<T: Send>(spmc::Sender<T>);

/// The consumer side of an spmc channel.
#[verifier::external_type_specification]
#[verifier::external_body]
#[verifier::reject_recursive_types(T)]
pub struct ExReceiver<T: Send>(spmc::Receiver<T>);

} // verus!
