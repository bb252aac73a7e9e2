//! The server lifecycle: at most one live server, started and stopped by
//! the editor thread.
use vstd::prelude::*;
use crate::errors::AmpError;
use crate::hub::{broadcast_spec, ClientV, Hub};
use crate::notifications::{message_spec, notification_text, send_append_to_prompt};

verus! {

/// A live server: its port, token, lockfile and hub, and whether shutdown
/// was requested.
#[derive(Debug)]
pub struct ServerHandle {
    pub port: u16,
    pub token: String,
    pub lockfile_path: String,
    pub hub: Hub,
    pub shutdown: bool,
}

/// The process-wide server slot.
#[derive(Debug)]
pub struct Server {
    pub handle: Option<ServerHandle>,
}

impl Server {
    /// The slot's invariant: a live server's hub is well formed.
    pub open spec fn wf(&self) -> bool {
        self.handle matches Some(h) ==> h.hub.wf()
    }

    /// Whether a server is up and not shutting down.
    pub open spec fn running_spec(&self) -> bool {
        self.handle matches Some(h) && !h.shutdown
    }

    /// No server yet.
    pub fn new() -> (r: Server)
        ensures
            r.wf(),
            r.handle is None,
            !r.running_spec(),
    {
        Server { handle: None }
    }

    /// Fails with `AlreadyRunning` when a server is up; checked before any
    /// socket is bound.
    pub fn ensure_stopped(&self) -> (r: Result<(), AmpError>)
        ensures
            r is Ok <==> self.handle is None,
            r is Err ==> r == Err::<(), AmpError>(AmpError::AlreadyRunning),
    {
        if self.handle.is_some() {
            Err(AmpError::AlreadyRunning)
        } else {
            Ok(())
        }
    }

    /// Stores a freshly started server and returns its port, token and
    /// lockfile path; a second start without a stop is `AlreadyRunning`
    /// and changes nothing.
    pub fn start(&mut self, port: u16, token: String, lockfile_path: String) -> (r: Result<(u16, String, String), AmpError>)
        requires
            old(self).wf(),
        ensures
            final(self).wf(),
            old(self).handle is Some ==> r == Err::<(u16, String, String), AmpError>(AmpError::AlreadyRunning)
                && *final(self) == *old(self),
            old(self).handle is None ==> r is Ok && final(self).running_spec(),
            old(self).handle is None ==> r->Ok_0.0 == port && r->Ok_0.1@ == token@ && r->Ok_0.2@ == lockfile_path@,
            old(self).handle is None ==> final(self).handle->Some_0.port == port
                && final(self).handle->Some_0.token@ == token@
                && final(self).handle->Some_0.lockfile_path@ == lockfile_path@
                && final(self).handle->Some_0.hub@ == Seq::<ClientV>::empty(),
    {
        if self.handle.is_some() {
            return Err(AmpError::AlreadyRunning);
        }
        let t = token.clone();
        let l = lockfile_path.clone();
        self.handle = Some(ServerHandle { port, token, lockfile_path, hub: Hub::new(), shutdown: false });
        Ok((port, t, l))
    }

    /// Stops the server: flags shutdown and hands the handle back so that
    /// the caller joins the acceptor and removes the lockfile. Without a
    /// server it does nothing, so stopping twice is harmless.
    pub fn stop(&mut self) -> (r: Option<ServerHandle>)
        requires
            old(self).wf(),
        ensures
            final(self).wf(),
            final(self).handle is None,
            !final(self).running_spec(),
            old(self).handle is None ==> r is None,
            old(self).handle is Some ==> r is Some && r->Some_0.shutdown
                && r->Some_0.port == old(self).handle->Some_0.port
                && r->Some_0.lockfile_path == old(self).handle->Some_0.lockfile_path
                && r->Some_0.token == old(self).handle->Some_0.token
                && r->Some_0.hub == old(self).handle->Some_0.hub,
    {
        match self.handle.take() {
            Some(mut h) => {
                h.shutdown = true;
                Some(h)
            },
            None => None,
        }
    }

    /// Whether the server is up.
    pub fn is_running(&self) -> (r: bool)
        ensures
            r == self.running_spec(),
    {
        match &self.handle {
            Some(h) => !h.shutdown,
            None => false,
        }
    }

    /// The port of a running server.
    pub fn get_port(&self) -> (r: Option<u16>)
        ensures
            self.running_spec() ==> r == Some(self.handle->Some_0.port),
            !self.running_spec() ==> r is None,
    {
        match &self.handle {
            Some(h) => if h.shutdown {
                None
            } else {
                Some(h.port)
            },
            None => None,
        }
    }

    /// The hub of a running server.
    pub fn get_hub(&self) -> (r: Option<&Hub>)
        ensures
            self.running_spec() ==> r is Some && *r->Some_0 == self.handle->Some_0.hub,
            !self.running_spec() ==> r is None,
    {
        match &self.handle {
            Some(h) => if h.shutdown {
                None
            } else {
                Some(&h.hub)
            },
            None => None,
        }
    }

    /// Number of clients of a running server, zero otherwise.
    pub fn client_count(&self) -> (r: usize)
        ensures
            self.running_spec() ==> r == self.handle->Some_0.hub@.len(),
            !self.running_spec() ==> r == 0,
    {
        match self.get_hub() {
            Some(h) => h.client_count(),
            None => 0,
        }
    }
}

impl Server {
    /// Broadcasts `appendToPrompt` through a running server; without one it
    /// is an error and nothing is sent.
    pub fn append_to_prompt(&mut self, message: &str) -> (r: Result<(), AmpError>)
        requires
            old(self).wf(),
        ensures
            final(self).wf(),
            old(self).running_spec() ==> r is Ok && final(self).running_spec()
                && final(self).handle->Some_0.port == old(self).handle->Some_0.port
                && final(self).handle->Some_0.hub@ == broadcast_spec(
                old(self).handle->Some_0.hub@,
                notification_text("appendToPrompt"@, message_spec(message@)),
            ),
            !old(self).running_spec() ==> (r matches Err(AmpError::Other(_)) && *final(self) == *old(self)),
    {
        match &mut self.handle {
            Some(h) => {
                if h.shutdown {
                    Err(AmpError::Other("WebSocket server not running".to_owned()))
                } else {
                    let _ = send_append_to_prompt(&mut h.hub, message);
                    Ok(())
                }
            },
            None => Err(AmpError::Other("WebSocket server not running".to_owned())),
        }
    }
}

} // verus!
