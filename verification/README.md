# myelin

Remote procedure calls over channels and byte streams, verified with
[Verus](https://github.com/verus-lang/verus).

A service is a trait. Clients turn a method call into a request, a transport
carries the request to a server, and the answer comes back to the caller that
waits for it.

- `src/` is the library: the routing of replies, framing, multiplexing, calls in
  both directions over one stream, and the generation of clients and servers
  from a trait. Its functions have contracts that Verus proves. The exceptions
  are the small functions marked `external_body`, which call other crates: their
  contracts are believed, and their doc comments say what is believed of which
  function.
- `tests/` runs the library together with the crates that it calls.
- `app/` is a program around the library: codecs, byte streams of the standard
  library, tokio and futures-io, in-process channels, and the services over
  standard input and output.

Operations that have to wait are state machines. `stream::call::MuxedCall`, for
instance, takes in what happened and says what to do next; whoever drives it
does the reading and writing. Tasks are parked and woken through
`atomic_waker`.

The proof functions named `law_...` state what holds of several functions
together, such as that a reply reaches the caller that waits for it, and that a
cancelled call gives its slot back. Its late reply is discarded and not handed to
the next call, on the condition that the peer answers every request, and those
of one slot (on a duplex stream: of one slot and one API) in their order.
