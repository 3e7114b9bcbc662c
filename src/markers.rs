use vstd::prelude::*;

verus! {

/// mio's non-blocking TCP listener, carried as an opaque value.
#[verifier::external_type_specification]
#[verifier::external_body]
pub struct ExTcpListener(mio::net::TcpListener);

/// mio's non-blocking TCP stream, carried as an opaque value.
#[verifier::external_type_specification]
#[verifier::external_body]
pub struct ExTcpStream(mio::net::TcpStream);

/// Compiles only for types that may be moved to another thread.
pub fn assert_send<T: Send>() {
}

/// Compiles only for types that may be shared between threads.
pub fn assert_sync<T: Sync>() {
}

/// Compiles only because the listener and the stream can both be moved to
/// another thread and shared between threads.
pub fn tcp_sockets_are_send_and_sync() {
    assert_send::<mio::net::TcpListener>();
    assert_send::<mio::net::TcpStream>();
    assert_sync::<mio::net::TcpListener>();
    assert_sync::<mio::net::TcpStream>();
}

} // verus!
