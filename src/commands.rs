//! The control commands and their wire form.
//!
//! A command travels as one frame: a two-byte little-endian length followed by
//! that many payload bytes. The payload is bincode's standard encoding of the
//! command: the variant index as a varint, then the fields.

use vstd::prelude::*;
use vstd::slice::slice_subrange;
use vstd::utf8::{decode_utf8, encode_utf8, encode_utf8_decode_utf8, encode_utf8_valid_utf8, valid_utf8};

verus! {

/// A request to the running daemon.
#[derive(Clone, Debug, PartialEq, Eq)]
pub enum Commands {
    /// Link the current wallpaper into the named category.
    Categorise { category: String },
    /// Print the configuration; handled by the client and never sent.
    Config,
    Next,
    Pause,
    Previous,
    Resume,
    Shutdown,
    Reload,
}

/// The mathematical value of a command.
pub enum CommandView {
    Categorise(Seq<char>),
    Config,
    Next,
    Pause,
    Previous,
    Resume,
    Shutdown,
    Reload,
}

impl View for Commands {
    type V = CommandView;

    open spec fn view(&self) -> CommandView {
        match self {
            Commands::Categorise { category } => CommandView::Categorise(category@),
            Commands::Config => CommandView::Config,
            Commands::Next => CommandView::Next,
            Commands::Pause => CommandView::Pause,
            Commands::Previous => CommandView::Previous,
            Commands::Resume => CommandView::Resume,
            Commands::Shutdown => CommandView::Shutdown,
            Commands::Reload => CommandView::Reload,
        }
    }
}

/// The parsed command line of the client.
pub struct Cli {
    pub command: Option<Commands>,
}

/// The `n` low bytes of `v`, least significant first.
pub open spec fn le_bytes(v: nat, n: nat) -> Seq<u8>
    decreases n,
{
    if n == 0 {
        Seq::empty()
    } else {
        seq![(v % 256) as u8] + le_bytes(v / 256, (n - 1) as nat)
    }
}

/// bincode's variable-length encoding of a `u32`.
pub open spec fn varint_u32(v: u32) -> Seq<u8> {
    if v <= 250 {
        seq![v as u8]
    } else if v <= 0xffff {
        seq![251u8] + le_bytes(v as nat, 2)
    } else {
        seq![252u8] + le_bytes(v as nat, 4)
    }
}

/// bincode's variable-length encoding of a `u64`.
pub open spec fn varint_u64(v: nat) -> Seq<u8> {
    if v <= 250 {
        seq![v as u8]
    } else if v <= 0xffff {
        seq![251u8] + le_bytes(v, 2)
    } else if v <= 0xffff_ffff {
        seq![252u8] + le_bytes(v, 4)
    } else {
        seq![253u8] + le_bytes(v, 8)
    }
}

/// bincode's encoding of a string: its UTF-8 length as a varint, then its UTF-8 bytes.
pub open spec fn str_wire(s: Seq<char>) -> Seq<u8> {
    varint_u64(encode_utf8(s).len()) + encode_utf8(s)
}

/// The variant index of a command, in declaration order.
pub open spec fn tag_of(c: CommandView) -> u32 {
    match c {
        CommandView::Categorise(_) => 0,
        CommandView::Config => 1,
        CommandView::Next => 2,
        CommandView::Pause => 3,
        CommandView::Previous => 4,
        CommandView::Resume => 5,
        CommandView::Shutdown => 6,
        CommandView::Reload => 7,
    }
}

/// The payload bytes of a command.
pub open spec fn wire(c: CommandView) -> Seq<u8> {
    match c {
        CommandView::Categorise(s) => varint_u32(0) + str_wire(s),
        _ => varint_u32(tag_of(c)),
    }
}

/// Whether the command may cross the wire: everything but `Config`.
pub open spec fn transmittable(c: CommandView) -> bool {
    !(c is Config)
}


/// Whether the payload of `c` fits the two-byte length of a frame.
pub open spec fn fits_frame(c: CommandView) -> bool {
    wire(c).len() <= 0xffff
}

/// The frame of a command: the payload length in two little-endian bytes, then the payload.
pub open spec fn frame_of(c: CommandView) -> Seq<u8> {
    le_bytes(wire(c).len(), 2) + wire(c)
}

/// The number whose little-endian bytes these are.
pub open spec fn le_value(b: Seq<u8>) -> nat
    decreases b.len(),
{
    if b.len() == 0 {
        0
    } else {
        b[0] as nat + 256 * le_value(b.drop_first())
    }
}

/// What bincode's varint reader makes of the start of `b` when it reads a
/// `u32`: the value and the number of bytes taken. A first byte up to 250 is
/// the value; 251 and 252 announce two and four little-endian bytes; any
/// other first byte, or too few bytes, is an error.
pub open spec fn read_varint_u32(b: Seq<u8>) -> Option<(nat, nat)> {
    if b.len() == 0 {
        None
    } else if b[0] <= 250 {
        Some((b[0] as nat, 1))
    } else if b[0] == 251 {
        if b.len() >= 3 { Some((le_value(b.subrange(1, 3)), 3)) } else { None }
    } else if b[0] == 252 {
        if b.len() >= 5 { Some((le_value(b.subrange(1, 5)), 5)) } else { None }
    } else {
        None
    }
}

/// As `read_varint_u32`, for a `u64`: 253 also announces eight bytes.
pub open spec fn read_varint_u64(b: Seq<u8>) -> Option<(nat, nat)> {
    if b.len() > 0 && b[0] == 253 {
        if b.len() >= 9 { Some((le_value(b.subrange(1, 9)), 9)) } else { None }
    } else {
        read_varint_u32(b)
    }
}

/// What bincode makes of the start of `b` when it reads a string: a `u64`
/// varint length, then that many bytes, which must be UTF-8. The text and the
/// number of bytes taken.
pub open spec fn read_str(b: Seq<u8>) -> Option<(Seq<char>, nat)> {
    match read_varint_u64(b) {
        None => None,
        Some((len, k)) => if k + len <= b.len() && valid_utf8(b.subrange(k as int, (k + len) as int)) {
            Some((decode_utf8(b.subrange(k as int, (k + len) as int)), k + len))
        } else {
            None
        },
    }
}

/// The command that a payload decodes to: the variant index as a `u32`
/// varint, then, for `Categorise`, the category as a string. `Config`'s index
/// and unknown indices decode to nothing; bytes after the command are ignored.
pub open spec fn decode_command(b: Seq<u8>) -> Option<CommandView> {
    match read_varint_u32(b) {
        None => None,
        Some((t, k)) => if t == 0 {
            match read_str(b.subrange(k as int, b.len() as int)) {
                Some((s, _)) => Some(CommandView::Categorise(s)),
                None => None,
            }
        } else if t == 2 {
            Some(CommandView::Next)
        } else if t == 3 {
            Some(CommandView::Pause)
        } else if t == 4 {
            Some(CommandView::Previous)
        } else if t == 5 {
            Some(CommandView::Resume)
        } else if t == 6 {
            Some(CommandView::Shutdown)
        } else if t == 7 {
            Some(CommandView::Reload)
        } else {
            None
        },
    }
}

/// The payload length that a frame's first two bytes state.
pub open spec fn stated_len(b: Seq<u8>) -> nat
    recommends
        b.len() >= 2,
{
    b[0] as nat + 256 * (b[1] as nat)
}

/// The command that a frame decodes to: nothing when the bytes end before the
/// two-byte length or before the payload it states; otherwise what the
/// payload decodes to. Bytes after the frame are ignored.
pub open spec fn decode_frame(b: Seq<u8>) -> Option<CommandView> {
    if b.len() < 2 || b.len() < 2 + stated_len(b) {
        None
    } else {
        decode_command(b.subrange(2, 2 + stated_len(b) as int))
    }
}

/// Relies on bincode::encode_to_vec with the standard configuration, which
/// writes a `u32` as a varint into a growing vector and cannot fail there.
#[verifier::external_body]
fn encode_u32(v: u32) -> (r: Vec<u8>)
    ensures
        r@ == varint_u32(v),
{
    match bincode::encode_to_vec(v, bincode::config::standard()) {
        Ok(bytes) => bytes,
        Err(_) => Vec::new(),
    }
}

/// Relies on bincode::encode_to_vec with the standard configuration, which
/// writes a string's byte length as a `u64` varint and then its bytes, into a
/// growing vector where it cannot fail.
#[verifier::external_body]
fn encode_str(s: &String) -> (r: Vec<u8>)
    ensures
        r@ == str_wire(s@),
{
    match bincode::encode_to_vec(s, bincode::config::standard()) {
        Ok(bytes) => bytes,
        Err(_) => Vec::new(),
    }
}

/// Relies on bincode::decode_from_slice for `u32` with the standard
/// configuration, which reads a varint as `read_varint_u32` states (the same
/// whether the slice holds five bytes or fewer) and reports how many bytes it
/// read.
#[verifier::external_body]
fn decode_u32(b: &[u8]) -> (r: Option<(u32, usize)>)
    ensures
        r is None <==> read_varint_u32(b@) is None,
        r matches Some(p) ==> read_varint_u32(b@) == Some((p.0 as nat, p.1 as nat)),
{
    bincode::decode_from_slice::<u32, _>(b, bincode::config::standard()).ok()
}

/// Relies on bincode::borrow_decode_from_slice for `&str` with the standard
/// configuration, which reads a `u64` varint length, takes that many bytes
/// only when the slice holds them, and checks that they are UTF-8, as
/// `read_str` states; it reports how many bytes it read.
#[verifier::external_body]
fn decode_str(b: &[u8]) -> (r: Option<(String, usize)>)
    ensures
        r is None <==> read_str(b@) is None,
        r matches Some(p) ==> read_str(b@) == Some((p.0@, p.1 as nat)),
{
    match bincode::borrow_decode_from_slice::<&str, _>(b, bincode::config::standard()) {
        Ok((s, n)) => Some((s.to_string(), n)),
        Err(_) => None,
    }
}

impl Commands {
    /// The payload of a command; `Config` is never encoded.
    pub fn to_bytes(&self) -> (r: Option<Vec<u8>>)
        ensures
            r is Some <==> transmittable(self@),
            r matches Some(b) ==> b@ == wire(self@),
    {
        match self {
            Commands::Config => None,
            Commands::Categorise { category } => {
                let mut bytes = encode_u32(0);
                let mut tail = encode_str(category);
                bytes.append(&mut tail);
                Some(bytes)
            },
            Commands::Next => Some(encode_u32(2)),
            Commands::Pause => Some(encode_u32(3)),
            Commands::Previous => Some(encode_u32(4)),
            Commands::Resume => Some(encode_u32(5)),
            Commands::Shutdown => Some(encode_u32(6)),
            Commands::Reload => Some(encode_u32(7)),
        }
    }

    /// Decodes a payload as `decode_command` states.
    pub fn from_bytes(bytes: &[u8]) -> (r: Option<Commands>)
        ensures
            r is None <==> decode_command(bytes@) is None,
            r matches Some(d) ==> decode_command(bytes@) == Some(d@),
    {
        match decode_u32(bytes) {
            None => None,
            Some((t, used)) => {
                if t == 0 {
                    let rest = slice_subrange(bytes, used, bytes.len());
                    match decode_str(rest) {
                        Some((category, _)) => Some(Commands::Categorise { category }),
                        None => None,
                    }
                } else if t == 2 {
                    Some(Commands::Next)
                } else if t == 3 {
                    Some(Commands::Pause)
                } else if t == 4 {
                    Some(Commands::Previous)
                } else if t == 5 {
                    Some(Commands::Resume)
                } else if t == 6 {
                    Some(Commands::Shutdown)
                } else if t == 7 {
                    Some(Commands::Reload)
                } else {
                    None
                }
            },
        }
    }

    /// The frame of a command: its payload preceded by the payload length in
    /// two little-endian bytes. `None` for `Config`, and for a payload longer
    /// than a two-byte length can state.
    pub fn to_frame(&self) -> (r: Option<Vec<u8>>)
        ensures
            r is Some <==> transmittable(self@) && fits_frame(self@),
            r matches Some(b) ==> b@ == frame_of(self@),
    {
        match self.to_bytes() {
            None => None,
            Some(payload) => {
                let n = payload.len();
                if n > 0xffff {
                    None
                } else {
                    let mut frame: Vec<u8> = Vec::new();
                    frame.push((n % 256) as u8);
                    frame.push((n / 256) as u8);
                    let mut body = payload;
                    frame.append(&mut body);
                    proof {
                        lemma_le_bytes_two(n as nat);
                        assert(((n as nat) / 256) % 256 == (n as nat) / 256);
                        assert(frame@ =~= frame_of(self@));
                    }
                    Some(frame)
                }
            },
        }
    }

    /// Whether this command, once forwarded, ends the server's accept loop.
    pub fn ends_session(&self) -> (r: bool)
        ensures
            r <==> self@ is Shutdown,
    {
        match self {
            Commands::Shutdown => true,
            _ => false,
        }
    }
}

proof fn lemma_le_bytes_two(v: nat)
    ensures
        le_bytes(v, 2) == seq![(v % 256) as u8, ((v / 256) % 256) as u8],
{
    reveal_with_fuel(le_bytes, 3);
    assert(le_bytes(v, 2) =~= seq![(v % 256) as u8, ((v / 256) % 256) as u8]);
}

/// Reads one frame as `decode_frame` states.
pub fn parse_frame(bytes: &[u8]) -> (r: Option<Commands>)
    ensures
        r is None <==> decode_frame(bytes@) is None,
        r matches Some(d) ==> decode_frame(bytes@) == Some(d@),
{
    if bytes.len() < 2 {
        return None;
    }
    let n: usize = bytes[0] as usize + 256 * (bytes[1] as usize);
    if bytes.len() - 2 < n {
        return None;
    }
    let payload = slice_subrange(bytes, 2, 2 + n);
    Commands::from_bytes(payload)
}

/// `256` to the power `n`.
pub open spec fn pow256(n: nat) -> nat
    decreases n,
{
    if n == 0 {
        1
    } else {
        256 * pow256((n - 1) as nat)
    }
}

proof fn lemma_le_bytes_value(v: nat, n: nat)
    requires
        v < pow256(n),
    ensures
        le_bytes(v, n).len() == n,
        le_value(le_bytes(v, n)) == v,
    decreases n,
{
    if n > 0 {
        let p = pow256((n - 1) as nat);
        assert(v / 256 < p) by (nonlinear_arith)
            requires v < 256 * p;
        lemma_le_bytes_value(v / 256, (n - 1) as nat);
        assert(le_bytes(v, n).drop_first() == le_bytes(v / 256, (n - 1) as nat));
        assert(le_bytes(v, n)[0] == (v % 256) as u8);
        assert(v == 256 * (v / 256) + v % 256);
    }
}

/// bincode's varint reader gives back the value of a varint, and its length.
proof fn lemma_read_varint_u64(v: nat, rest: Seq<u8>)
    requires
        v < pow256(8),
    ensures
        read_varint_u64(varint_u64(v) + rest) == Some((v, varint_u64(v).len())),
{
    reveal_with_fuel(pow256, 9);
    let b = varint_u64(v) + rest;
    if v > 250 {
        let k: int = if v <= 0xffff { 2 } else if v <= 0xffff_ffff { 4 } else { 8 };
        lemma_le_bytes_value(v, k as nat);
        assert(b.subrange(1, 1 + k) =~= le_bytes(v, k as nat));
    }
}

/// Whether a command's text fits bincode's length field, as that of any
/// string in memory does.
pub open spec fn wire_sized(c: CommandView) -> bool {
    c matches CommandView::Categorise(s) ==> encode_utf8(s).len() < pow256(8)
}

proof fn lemma_payload_round_trip(c: CommandView, rest: Seq<u8>)
    requires
        transmittable(c),
        wire_sized(c),
    ensures
        decode_command(wire(c) + rest) == Some(c),
{
    let b = wire(c) + rest;
    if let CommandView::Categorise(s) = c {
        let e = encode_utf8(s);
        let tail = b.subrange(1, b.len() as int);
        assert(tail =~= varint_u64(e.len()) + (e + rest));
        lemma_read_varint_u64(e.len(), e + rest);
        let k = varint_u64(e.len()).len();
        assert(tail.subrange(k as int, (k + e.len()) as int) =~= e);
        encode_utf8_valid_utf8(s);
        encode_utf8_decode_utf8(s);
    }
}

/// Every transmittable command survives the wire: its payload, whatever
/// follows it, decodes to it, and so does its frame when the payload fits
/// one.
pub proof fn lemma_wire_round_trip(c: CommandView, rest: Seq<u8>)
    requires
        transmittable(c),
        wire_sized(c),
    ensures
        decode_command(wire(c) + rest) == Some(c),
        fits_frame(c) ==> decode_frame(frame_of(c) + rest) == Some(c),
{
    lemma_payload_round_trip(c, rest);
    if fits_frame(c) {
        let w = wire(c).len();
        let f = frame_of(c) + rest;
        lemma_le_bytes_two(w);
        assert(stated_len(f) == w);
        assert(f.subrange(2, 2 + w as int) =~= wire(c) + Seq::<u8>::empty());
        lemma_payload_round_trip(c, Seq::empty());
    }
}

} // verus!
