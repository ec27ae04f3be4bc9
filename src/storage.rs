//! Cloud Storage: the client that reads objects over a bidirectional stream,
//! and the stub behind the storage client.
use crate::options::RequestOptions;
use crate::request::share;
use std::sync::Arc;
use vstd::prelude::*;

verus! {

/// Which object a bidirectional read opens.
pub struct BidiReadObjectSpec {
    pub bucket: String,
    pub object: String,
}

/// A client that reads objects over bidirectional streams, through a stub
/// of type `S`.
pub struct Bidi<S> {
    stub: Arc<S>,
    options: RequestOptions,
}

/// A request to open an object for reading, not sent yet.
pub struct OpenObject<S> {
    spec: BidiReadObjectSpec,
    options: RequestOptions,
    stub: Arc<S>,
}

impl<S> OpenObject<S> {
    pub closed spec fn spec_spec(&self) -> BidiReadObjectSpec {
        self.spec
    }

    pub closed spec fn options_spec(&self) -> RequestOptions {
        self.options
    }

    pub closed spec fn stub_spec(&self) -> Arc<S> {
        self.stub
    }

    /// A request to open `object` in `bucket`, sent through `stub` with
    /// `options`.
    pub fn new(bucket: String, object: String, stub: Arc<S>, options: RequestOptions) -> (r: Self)
        ensures
            r.spec_spec() == (BidiReadObjectSpec { bucket, object }),
            r.options_spec() == options,
            r.stub_spec() == stub,
    {
        let spec = BidiReadObjectSpec { bucket, object };
        OpenObject { spec, stub, options }
    }

    /// Which object the request opens.
    pub fn spec(&self) -> (r: &BidiReadObjectSpec)
        ensures
            *r == self.spec_spec(),
    {
        &self.spec
    }
}

impl<S> Bidi<S> {
    pub closed spec fn stub_spec(&self) -> Arc<S> {
        self.stub
    }

    pub closed spec fn options_spec(&self) -> RequestOptions {
        self.options
    }

    /// A client that sends its requests through `stub`, with `options`.
    pub fn from_stub(stub: S, options: RequestOptions) -> (r: Self)
        ensures
            *r.stub_spec() == stub,
            r.options_spec() == options,
    {
        Bidi { stub: Arc::new(stub), options }
    }

    /// A request to open `object` in `bucket`, with the client's stub and
    /// options.
    pub fn open_object(&self, bucket: String, object: String) -> (r: OpenObject<S>)
        ensures
            r.spec_spec() == (BidiReadObjectSpec { bucket, object }),
            r.options_spec() == self.options_spec(),
            r.stub_spec() == self.stub_spec(),
    {
        OpenObject::new(bucket, object, share(&self.stub), self.options)
    }
}

/// The stub behind the storage client: the shared client state, and whether
/// requests are traced.
pub struct Storage<I> {
    inner: Arc<I>,
    tracing: bool,
}

impl<I> Storage<I> {
    pub closed spec fn inner_spec(&self) -> Arc<I> {
        self.inner
    }

    pub closed spec fn tracing_spec(&self) -> bool {
        self.tracing
    }

    /// A stub over `inner` that traces its requests if `tracing` is set.
    pub fn new(inner: Arc<I>, tracing: bool) -> (r: Arc<Self>)
        ensures
            r.inner_spec() == inner,
            r.tracing_spec() == tracing,
    {
        Arc::new(Storage { inner, tracing })
    }

    /// A stub over `inner` that does not trace.
    pub fn new_test(inner: Arc<I>) -> (r: Arc<Self>)
        ensures
            r.inner_spec() == inner,
            !r.tracing_spec(),
    {
        Self::new(inner, false)
    }

    /// Whether requests are traced.
    pub fn tracing(&self) -> (r: bool)
        ensures
            r == self.tracing_spec(),
    {
        self.tracing
    }
}

} // verus!
