//! The settings of one daemon instance: where its binary, its credentials
//! and its runtime data live.
use vstd::prelude::*;
use crate::text::{path_join, spec_path_join};

verus! {

/// The paths a daemon instance works with. They name files; the daemon
/// reads the credentials from them when a subsystem starts.
#[derive(Debug, Clone)]
pub struct AuraedRuntime {
    /// The daemon binary; by default the link `/proc/self/exe`.
    pub auraed: String,
    /// The certificate authority of the organisation or mesh.
    pub ca_crt: String,
    /// The signed server certificate of this instance.
    pub server_crt: String,
    /// The secret key of this instance.
    pub server_key: String,
    /// The runtime directory; by default `/var/run/aurae`.
    pub runtime_dir: String,
    /// The library directory; by default `/var/lib/aurae`.
    pub library_dir: String,
}

impl Default for AuraedRuntime {
    fn default() -> (r: Self)
        ensures
            r.auraed@ == "/proc/self/exe"@,
            r.ca_crt@ == "/etc/aurae/pki/ca.crt"@,
            r.server_crt@ == "/etc/aurae/pki/_signed.server.crt"@,
            r.server_key@ == "/etc/aurae/pki/server.key"@,
            r.runtime_dir@ == "/var/run/aurae"@,
            r.library_dir@ == "/var/lib/aurae"@,
    {
        AuraedRuntime {
            auraed: String::from_str("/proc/self/exe"),
            ca_crt: String::from_str("/etc/aurae/pki/ca.crt"),
            server_crt: String::from_str("/etc/aurae/pki/_signed.server.crt"),
            server_key: String::from_str("/etc/aurae/pki/server.key"),
            runtime_dir: String::from_str("/var/run/aurae"),
            library_dir: String::from_str("/var/lib/aurae"),
        }
    }
}

impl AuraedRuntime {
    /// `bundles` under the runtime directory.
    pub fn bundles_dir(&self) -> (r: String)
        ensures
            r@ == spec_path_join(self.runtime_dir@, "bundles"@),
    {
        path_join(self.runtime_dir.as_str(), "bundles")
    }

    /// `pods` under the runtime directory.
    pub fn pods_dir(&self) -> (r: String)
        ensures
            r@ == spec_path_join(self.runtime_dir@, "pods"@),
    {
        path_join(self.runtime_dir.as_str(), "pods")
    }

    /// The Unix socket the daemon listens on unless told otherwise:
    /// `aurae.sock` under the runtime directory.
    pub fn default_socket_address(&self) -> (r: String)
        ensures
            r@ == spec_path_join(self.runtime_dir@, "aurae.sock"@),
    {
        path_join(self.runtime_dir.as_str(), "aurae.sock")
    }
}

/// The address the first process of a machine listens on unless told
/// otherwise (TCP, all interfaces, port 8080).
pub open spec fn default_network_socket_addr() -> Seq<char> {
    "[::]:8080"@
}

/// The address the daemon listens on: the one it was given, else the default.
pub fn socket_address_or(given: Option<String>, default: String) -> (r: String)
    ensures
        given is Some ==> r@ == given->0@,
        given is None ==> r@ == default@,
{
    match given {
        Some(s) => s,
        None => default,
    }
}

/// The address the first process of a machine listens on.
pub fn pid1_socket_address(given: Option<String>) -> (r: String)
    ensures
        given is Some ==> r@ == given->0@,
        given is None ==> r@ == default_network_socket_addr(),
{
    socket_address_or(given, String::from_str("[::]:8080"))
}

/// The address a daemon or a pod container listens on: the one it was
/// given, else the default socket under the runtime directory.
pub fn local_socket_address(given: Option<String>, runtime: &AuraedRuntime) -> (r: String)
    ensures
        given is Some ==> r@ == given->0@,
        given is None ==> r@ == spec_path_join(runtime.runtime_dir@, "aurae.sock"@),
{
    match given {
        Some(s) => s,
        None => runtime.default_socket_address(),
    }
}

/// The pod service, which keeps its bundles under a root path.
#[derive(Debug, Clone)]
pub struct PodService {
    root_path: String,
}

impl View for PodService {
    type V = Seq<char>;

    closed spec fn view(&self) -> Seq<char> {
        self.root_path@
    }
}

impl PodService {
    /// A pod service rooted at `root_path`.
    pub fn new(root_path: String) -> (r: Self)
        ensures
            r@ == root_path@,
    {
        PodService { root_path }
    }

    /// Where the container bundles of the pods live: `bundles` under the root.
    pub fn bundles_path(&self) -> (r: String)
        ensures
            r@ == spec_path_join(self@, "bundles"@),
    {
        path_join(self.root_path.as_str(), "bundles")
    }
}

} // verus!
