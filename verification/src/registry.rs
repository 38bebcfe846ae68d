//! The last-known description of the running service, kept for whoever asks.

use vstd::prelude::*;
use vstd::std_specs::cmp::PartialEqSpecImpl;
use vstd::string::*;

verus! {

/// What a registered service is doing. A service is registered only once it
/// has answered, so there is one status.
#[derive(Clone, Copy, Debug, PartialEq, Eq, Structural)]
pub enum ServiceStatus {
    Running,
}

impl ServiceStatus {
    /// The status as the word that is shown to callers.
    pub fn as_str(&self) -> (r: &'static str)
        ensures
            r@ == "running"@,
    {
        "running"
    }
}

/// A snapshot of the running service: where it answers and how it stands.
#[derive(Debug)]
pub struct ServerInfo {
    pub url: String,
    pub port: u16,
    pub status: ServiceStatus,
}

/// A snapshot as a mathematical value.
pub ghost struct ServerInfoView {
    pub url: Seq<char>,
    pub port: u16,
    pub status: ServiceStatus,
}

impl View for ServerInfo {
    type V = ServerInfoView;

    open spec fn view(&self) -> ServerInfoView {
        ServerInfoView { url: self.url@, port: self.port, status: self.status }
    }
}

impl Clone for ServerInfo {
    fn clone(&self) -> (r: Self)
        ensures
            r@ == self@,
    {
        ServerInfo { url: self.url.clone(), port: self.port, status: self.status }
    }
}

impl PartialEq for ServerInfo {
    fn eq(&self, other: &Self) -> (r: bool) {
        self.url == other.url && self.port == other.port && self.status == other.status
    }
}

impl PartialEqSpecImpl for ServerInfo {
    open spec fn obeys_eq_spec() -> bool {
        true
    }

    open spec fn eq_spec(&self, other: &Self) -> bool {
        self@ == other@
    }
}

/// The view of a snapshot that may be absent.
pub open spec fn snapshot_view(info: Option<ServerInfo>) -> Option<ServerInfoView> {
    match info {
        Some(info) => Some(info@),
        None => None,
    }
}

/// Holds at most one snapshot. It is replaced or removed as a whole, and
/// readers get a copy of their own.
#[derive(Debug)]
pub struct ServiceRegistry {
    info: Option<ServerInfo>,
}

impl View for ServiceRegistry {
    type V = Option<ServerInfoView>;

    closed spec fn view(&self) -> Option<ServerInfoView> {
        snapshot_view(self.info)
    }
}

impl ServiceRegistry {
    /// A registry that holds nothing: no service has been started.
    pub fn new() -> (r: Self)
        ensures
            r@ is None,
    {
        ServiceRegistry { info: None }
    }

    /// A copy of the snapshot, or nothing where no service is registered.
    pub fn get(&self) -> (r: Option<ServerInfo>)
        ensures
            snapshot_view(r) == self@,
    {
        match &self.info {
            Some(info) => Some(info.clone()),
            None => None,
        }
    }

    /// Registers `info` in place of whatever was registered.
    pub fn set(&mut self, info: ServerInfo)
        ensures
            final(self)@ == Some(info@),
    {
        self.info = Some(info);
    }

    /// Removes the snapshot, if there is one.
    pub fn clear(&mut self)
        ensures
            final(self)@ is None,
    {
        self.info = None;
    }
}

} // verus!
