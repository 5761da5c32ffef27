//! The configuration of a deployment and its validation.

use vstd::prelude::*;
use crate::compose::{Network, Service, Volume};
use crate::env::EnvironmentFile;
use crate::repository::Repository;
use crate::settings::Settings;

verus! {

/// A deployment: settings, services and what they refer to.
#[derive(Debug, Clone, PartialEq, Eq)]
pub struct Config {
    pub settings: Settings,
    pub services: Vec<Service>,
    pub env_files: Vec<EnvironmentFile>,
    pub networks: Vec<Network>,
    pub volumes: Vec<Volume>,
    pub repositories: Vec<Repository>,
}

/// The declaration list that a reference is looked up in.
#[derive(Debug, Clone, Copy, PartialEq, Eq, Structural)]
pub enum ReferenceKind {
    Network,
    EnvironmentFile,
}

/// A reference of a service to a name that is not declared.
#[derive(Debug, Clone, PartialEq, Eq)]
pub struct ValidationError {
    /// The name referred to.
    pub reference: String,
    /// Hostname of the referring service.
    pub service: String,
    /// The list that was searched.
    pub kind: ReferenceKind,
}

/// Some network of `networks` is named `name`.
pub open spec fn declares_network(networks: Seq<Network>, name: Seq<char>) -> bool {
    exists|k: int| 0 <= k < networks.len() && #[trigger] networks[k].name@ == name
}

/// Some set of `sets` is named `name`.
pub open spec fn declares_env_file(sets: Seq<EnvironmentFile>, name: Seq<char>) -> bool {
    exists|k: int| 0 <= k < sets.len() && #[trigger] sets[k].name@ == name
}

/// Every network and environment-file set that `s` refers to is declared.
pub open spec fn service_resolves(
    s: Service,
    networks: Seq<Network>,
    sets: Seq<EnvironmentFile>,
) -> bool {
    &&& forall|j: int|
        0 <= j < s.networks.len() ==> declares_network(networks, #[trigger] s.networks@[j]@)
    &&& forall|j: int|
        0 <= j < s.env_file.len() ==> declares_env_file(sets, #[trigger] s.env_file@[j]@)
}

/// Whether `name` is the name of a network of `networks`.
fn has_network(networks: &Vec<Network>, name: &String) -> (r: bool)
    ensures
        r == declares_network(networks@, name@),
{
    let mut k: usize = 0;
    while k < networks.len()
        invariant
            k <= networks.len(),
            forall|m: int| 0 <= m < k ==> #[trigger] networks@[m].name@ != name@,
        decreases networks.len() - k,
    {
        if networks[k].name == *name {
            return true;
        }
        k = k + 1;
    }
    false
}

/// Whether `name` is the name of a set of `sets`.
fn has_env_file(sets: &Vec<EnvironmentFile>, name: &String) -> (r: bool)
    ensures
        r == declares_env_file(sets@, name@),
{
    let mut k: usize = 0;
    while k < sets.len()
        invariant
            k <= sets.len(),
            forall|m: int| 0 <= m < k ==> #[trigger] sets@[m].name@ != name@,
        decreases sets.len() - k,
    {
        if sets[k].name == *name {
            return true;
        }
        k = k + 1;
    }
    false
}

impl Config {
    /// Every reference of every service resolves.
    pub open spec fn references_resolve(&self) -> bool {
        forall|i: int|
            0 <= i < self.services.len() ==> service_resolves(
                #[trigger] self.services@[i],
                self.networks@,
                self.env_files@,
            )
    }

    /// The service with hostname `hostname` refers, in the list `kind`, to
    /// `reference`, which that list does not declare.
    pub open spec fn dangling(&self, hostname: Seq<char>, reference: Seq<char>, kind: ReferenceKind) -> bool {
        exists|i: int|
            0 <= i < self.services.len() && #[trigger] self.services@[i].hostname@ == hostname
                && match kind {
                ReferenceKind::Network => {
                    &&& exists|j: int|
                        0 <= j < self.services@[i].networks.len()
                            && #[trigger] self.services@[i].networks@[j]@ == reference
                    &&& !declares_network(self.networks@, reference)
                },
                ReferenceKind::EnvironmentFile => {
                    &&& exists|j: int|
                        0 <= j < self.services@[i].env_file.len()
                            && #[trigger] self.services@[i].env_file@[j]@ == reference
                    &&& !declares_env_file(self.env_files@, reference)
                },
            }
    }

    /// Checks that every network and environment-file set that a service
    /// refers to is declared, by exact name. Stops at the first reference
    /// that is not and reports it.
    pub fn validate(&self) -> (r: Result<(), ValidationError>)
        ensures
            r is Ok <==> self.references_resolve(),
            r matches Err(e) ==> self.dangling(e.service@, e.reference@, e.kind),
    {
        let mut i: usize = 0;
        while i < self.services.len()
            invariant
                i <= self.services.len(),
                forall|m: int|
                    0 <= m < i ==> service_resolves(
                        #[trigger] self.services@[m],
                        self.networks@,
                        self.env_files@,
                    ),
            decreases self.services.len() - i,
        {
            let service = &self.services[i];
            let mut j: usize = 0;
            while j < service.networks.len()
                invariant
                    i < self.services.len(),
                    j <= service.networks.len(),
                    service == self.services@[i as int],
                    forall|m: int|
                        0 <= m < j ==> declares_network(self.networks@, #[trigger] service.networks@[m]@),
                decreases service.networks.len() - j,
            {
                if !has_network(&self.networks, &service.networks[j]) {
                    let e = ValidationError {
                        reference: service.networks[j].clone(),
                        service: service.hostname.clone(),
                        kind: ReferenceKind::Network,
                    };
                    assert(self.services@[i as int].hostname@ == e.service@);
                    assert(self.services@[i as int].networks@[j as int]@ == e.reference@);
                    assert(!service_resolves(self.services@[i as int], self.networks@, self.env_files@));
                    assert(self.dangling(e.service@, e.reference@, e.kind));
                    return Err(e);
                }
                j = j + 1;
            }
            let mut j: usize = 0;
            while j < service.env_file.len()
                invariant
                    i < self.services.len(),
                    j <= service.env_file.len(),
                    service == self.services@[i as int],
                    forall|m: int|
                        0 <= m < j ==> declares_env_file(self.env_files@, #[trigger] service.env_file@[m]@),
                decreases service.env_file.len() - j,
            {
                if !has_env_file(&self.env_files, &service.env_file[j]) {
                    let e = ValidationError {
                        reference: service.env_file[j].clone(),
                        service: service.hostname.clone(),
                        kind: ReferenceKind::EnvironmentFile,
                    };
                    assert(self.services@[i as int].hostname@ == e.service@);
                    assert(self.services@[i as int].env_file@[j as int]@ == e.reference@);
                    assert(!service_resolves(self.services@[i as int], self.networks@, self.env_files@));
                    assert(self.dangling(e.service@, e.reference@, e.kind));
                    return Err(e);
                }
                j = j + 1;
            }
            i = i + 1;
        }
        Ok(())
    }
}

} // verus!
