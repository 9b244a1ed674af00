//! A descriptor bound to a transport handle.

use std::marker::PhantomData;
use vstd::prelude::*;

use crate::crds::ResourceId;
use crate::raw::RawApi;

verus! {

/// A resource descriptor together with the handle of the transport that will
/// carry its requests. The handle is opaque here: it is kept and handed back.
pub struct Api<K, C> {
    api: RawApi<K>,
    client: C,
    phantom: PhantomData<K>,
}

impl<K, C> View for Api<K, C> {
    type V = (ResourceId, C);

    closed spec fn view(&self) -> (ResourceId, C) {
        (self.api@, self.client)
    }
}

impl<K, C> Api<K, C> {
    /// Binds a descriptor to a transport handle.
    pub fn new(api: RawApi<K>, client: C) -> (r: Self)
        ensures
            r@ == (api@, client),
    {
        Api { api, client, phantom: PhantomData }
    }

    /// The descriptor, from which the requests are made.
    pub fn raw(&self) -> (r: &RawApi<K>)
        ensures
            r@ == self@.0,
    {
        &self.api
    }

    /// The transport handle.
    pub fn client(&self) -> (r: &C)
        ensures
            *r == self@.1,
    {
        &self.client
    }

    /// The descriptor and the transport handle, apart again.
    pub fn into_parts(self) -> (r: (RawApi<K>, C))
        ensures
            r.0@ == self@.0,
            r.1 == self@.1,
    {
        (self.api, self.client)
    }
}

} // verus!
