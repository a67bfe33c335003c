//! A builder of service registries.
use vstd::prelude::*;
use crate::service_map::{placed, ServiceMap};
use crate::wire::ServiceRegistry;
use super::script::DEFAULT_TEST_SERVICE;

verus! {

pub const DEFAULT_TEST_URL: &'static str = "http://api.example.com";

/// Builds a service registry.
#[derive(Debug)]
pub struct RegistryBuilder {
    services: ServiceMap,
}

impl RegistryBuilder {
    pub closed spec fn spec_services(self) -> ServiceMap {
        self.services
    }

    /// A builder with no services.
    pub fn new() -> (b: Self)
        ensures
            b.spec_services().wf(),
            b.spec_services().spec_entries().len() == 0,
    {
        RegistryBuilder { services: ServiceMap::new() }
    }

    /// Registers `name` at `address`, replacing an earlier address of the
    /// same name.
    pub fn with_service(self, name: String, address: String) -> (b: Self)
        requires
            self.spec_services().wf(),
        ensures
            b.spec_services().wf(),
            exists|p: int| #[trigger] placed(self.spec_services().spec_entries(), b.spec_services().spec_entries(), p, name@, address@),
            b.spec_services().spec_map() == self.spec_services().spec_map().insert(name@, address@),
    {
        let mut services = self.services;
        let ghost before = services.spec_entries();
        let ghost (n, a) = (name@, address@);
        services.insert(name, address);
        proof {
            let p = choose|p: int| #[trigger] placed(before, services.spec_entries(), p, n, a);
            assert(placed(before, services.spec_entries(), p, n, a));
        }
        RegistryBuilder { services }
    }

    /// The built registry.
    pub fn build(self) -> (r: ServiceRegistry)
        ensures
            r.services == self.spec_services(),
    {
        ServiceRegistry { services: self.services }
    }
}

impl Default for RegistryBuilder {
    /// A builder with the default test service registered.
    fn default() -> (b: Self)
        ensures
            b.spec_services().wf(),
            b.spec_services().spec_entries() == seq![(DEFAULT_TEST_SERVICE@, DEFAULT_TEST_URL@)],
    {
        let b = RegistryBuilder::new().with_service(DEFAULT_TEST_SERVICE.to_owned(), DEFAULT_TEST_URL.to_owned());
        proof {
            let p = choose|p: int| #[trigger] placed(Seq::<(Seq<char>, Seq<char>)>::empty(), b.spec_services().spec_entries(), p, DEFAULT_TEST_SERVICE@, DEFAULT_TEST_URL@);
            assert(b.spec_services().spec_entries() =~= seq![(DEFAULT_TEST_SERVICE@, DEFAULT_TEST_URL@)]);
        }
        b
    }
}

} // verus!
