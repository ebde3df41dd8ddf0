# MicBridge

Carries a microphone from one computer to another over the local network. The
machine with the microphone runs `micbridge send`, the other one `micbridge
recv`, and the microphone shows up there as an ordinary input device.

## Layout

```
src/        the library, verified with Verus
  proto/    RTP framing, control messages, sequence numbers without wraps
  engine/   jitter buffer, adaptive target, simulated link, loss recovery
  net/      pairing, the encrypted channel, media encryption, keys, discovery
  session/  what the two sides of a session decide, and what they say
  audio/    which device and which format to pick
  window/   what the window shows and decides
  i18n/     texts in seven languages
tests/      tests of the library from outside
app/        the program: command line, sockets, threads, sound cards, the window
```

The library does no I/O. It takes plain values and gives plain values back: a
packet and the cipher in, a verdict and the changed buffer out; a message in,
the next message out. `app/` moves the bytes.

## What is proved

Every function in `src/` states in its contract what it returns and changes;
where a draw of random numbers decides, it states what holds of every draw. Beyond that there are laws over several functions, written as proof functions:

* the jitter buffer hands slots out in order, never holds more than its cap,
  does not mind reordering, and rebuilds a hole exactly where the successor is
  there (`engine::jitter`);
* plain loss never grows the cushion, and silence of the sink is no trouble of
  the network (`session::pacer`);
* a packet that was sent is taken, no two packets share a nonce, and a forged
  packet moves no counter (`session::send`, `session::intake`);
* the same code gives both sides the same key, a shared secret gives a channel
  whose two ends stay in step, and the third miss replaces the code (`net::pair`,
  `net::channel`, `session::pair`);
* what was framed, encoded or stored reads back (`proto`, `net::keys`).

The cryptography itself (ChaCha20-Poly1305, Noise, SPAKE2, SHA-256), the random
numbers, hexadecimal and the lowering of Unicode text come from other crates and
from std. Each such call stands behind one small function whose comment says what
is taken for granted of it.

The codec, the resampler, the drift controller and the jitter estimate work on
floating-point samples and stand in `app/`.
