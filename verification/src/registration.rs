use vstd::prelude::*;

use crate::config::Config;
use crate::directory::ServiceEntry;

verus! {

/// What the instance announces to the registry at startup: its domain and
/// its service directory.
pub struct RegistrationPayload {
    pub domain: String,
    pub services: Vec<ServiceEntry>,
}

fn clone_directory(dir: &Vec<ServiceEntry>) -> (r: Vec<ServiceEntry>)
    ensures
        r.deep_view() == dir.deep_view(),
{
    let mut out: Vec<ServiceEntry> = Vec::new();
    let mut i: usize = 0;
    while i < dir.len()
        invariant
            0 <= i <= dir.len(),
            out@.len() == i as int,
            forall|j: int| 0 <= j < i ==> (#[trigger] out@[j]).deep_view() == dir.deep_view()[j],
        decreases dir.len() - i,
    {
        let entry = ServiceEntry { name: dir[i].name.clone(), url: dir[i].url.clone() };
        let ghost out_before: Seq<ServiceEntry> = out@;
        out.push(entry);
        i += 1;
        proof {
            assert forall|j: int| 0 <= j < i implies (#[trigger] out@[j]).deep_view()
                == dir.deep_view()[j] by {
                if j < i - 1 {
                    assert(out@[j] == out_before[j]);
                } else {
                    assert(out@[j] == entry);
                }
            }
        }
    }
    proof {
        assert(out.deep_view() =~= dir.deep_view());
    }
    out
}

/// Builds the startup registration payload: the configured domain, and the
/// same service directory snapshot that the landing page renders.
pub fn build_registration_payload(config: &Config) -> (r: RegistrationPayload)
    ensures
        r.domain@ == config.domain@,
        r.services.deep_view() == config.services.deep_view(),
{
    RegistrationPayload { domain: config.domain.clone(), services: clone_directory(
        &config.services,
    ) }
}

} // verus!
