//! A client that belongs to one window.

use vstd::prelude::*;

verus! {

/// A client of one window: the window's label, the server to reach, and the
/// stream once there is one. `S` is the type of a stream.
pub struct TcpClientInstance<S> {
    label: String,
    server_host: String,
    stream: Option<S>,
}

impl<S> TcpClientInstance<S> {
    /// The window's label.
    pub closed spec fn label(&self) -> Seq<char> {
        self.label@
    }

    /// The address of the server.
    pub closed spec fn server_host(&self) -> Seq<char> {
        self.server_host@
    }

    /// The stream to the server, if the client is connected.
    pub closed spec fn stream(&self) -> Option<S> {
        self.stream
    }

    /// A client that is not connected.
    pub fn new(label: &str, server_host: &str) -> (client: Self)
        ensures
            client.label() == label@,
            client.server_host() == server_host@,
            client.stream() is None,
    {
        TcpClientInstance {
            label: String::from_str(label),
            server_host: String::from_str(server_host),
            stream: None,
        }
    }

    /// The address to connect to.
    pub fn target(&self) -> (addr: &String)
        ensures
            addr@ == self.server_host(),
    {
        &self.server_host
    }

    /// Completes a connect with its outcome: the stream that was opened, or
    /// the reason why none was. A stream is kept; a failure leaves the
    /// client as it was and comes back as it is.
    pub fn connect(&mut self, outcome: Result<S, String>) -> (r: Result<(), String>)
        ensures
            final(self).label() == old(self).label(),
            final(self).server_host() == old(self).server_host(),
            match outcome {
                Ok(stream) => r is Ok && final(self).stream() == Some(stream),
                Err(reason) => r == Err::<(), String>(reason) && final(self).stream() == old(
                    self,
                ).stream(),
            },
    {
        match outcome {
            Ok(stream) => {
                self.stream = Some(stream);
                Ok(())
            },
            Err(reason) => Err(reason),
        }
    }
}

} // verus!
