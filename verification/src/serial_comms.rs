use vstd::prelude::*;

verus! {

/// The value a byte sequence spells in big-endian order.
pub open spec fn be_val(s: Seq<u8>) -> nat
    decreases s.len(),
{
    if s.len() == 0 {
        0
    } else {
        be_val(s.drop_last()) * 256 + s.last() as nat
    }
}

/// 256 to the power `k`: the number of values `k` bytes can spell.
pub open spec fn pow256(k: nat) -> nat
    decreases k,
{
    if k == 0 {
        1
    } else {
        256 * pow256((k - 1) as nat)
    }
}

/// Appending a byte shifts the value up by one byte's worth.
pub proof fn lemma_be_val_push(s: Seq<u8>, b: u8)
    ensures
        be_val(s.push(b)) == be_val(s) * 256 + b,
{
    assert(s.push(b).drop_last() =~= s);
    assert(s.push(b).last() == b);
}

/// `k` bytes spell a value below `pow256(k)`.
pub proof fn lemma_be_val_bound(s: Seq<u8>)
    ensures
        be_val(s) < pow256(s.len()),
    decreases s.len(),
{
    if s.len() > 0 {
        lemma_be_val_bound(s.drop_last());
    }
}

/// Append the eight bytes that spell `x` in big-endian order.
fn push_be8(out: &mut Vec<u8>, x: u64)
    requires
        old(out)@.len() + 8 <= usize::MAX,
    ensures
        final(out)@.len() == old(out)@.len() + 8,
        final(out)@.subrange(0, old(out)@.len() as int) == old(out)@,
        be_val(final(out)@.subrange(old(out)@.len() as int, final(out)@.len() as int)) == x,
{
    let t6 = x / 256;
    let t5 = t6 / 256;
    let t4 = t5 / 256;
    let t3 = t4 / 256;
    let t2 = t3 / 256;
    let t1 = t2 / 256;
    let t0 = t1 / 256;
    let b0 = (t0 % 256) as u8;
    let b1 = (t1 % 256) as u8;
    let b2 = (t2 % 256) as u8;
    let b3 = (t3 % 256) as u8;
    let b4 = (t4 % 256) as u8;
    let b5 = (t5 % 256) as u8;
    let b6 = (t6 % 256) as u8;
    let b7 = (x % 256) as u8;
    proof {
        let e = Seq::<u8>::empty();
        assert(t0 < 256);
        lemma_be_val_push(e, b0);
        lemma_be_val_push(e.push(b0), b1);
        lemma_be_val_push(e.push(b0).push(b1), b2);
        lemma_be_val_push(e.push(b0).push(b1).push(b2), b3);
        lemma_be_val_push(e.push(b0).push(b1).push(b2).push(b3), b4);
        lemma_be_val_push(e.push(b0).push(b1).push(b2).push(b3).push(b4), b5);
        lemma_be_val_push(e.push(b0).push(b1).push(b2).push(b3).push(b4).push(b5), b6);
        lemma_be_val_push(e.push(b0).push(b1).push(b2).push(b3).push(b4).push(b5).push(b6), b7);
        assert(be_val(e.push(b0)) == t0);
        assert(be_val(e.push(b0).push(b1)) == t1);
        assert(be_val(e.push(b0).push(b1).push(b2)) == t2);
        assert(be_val(e.push(b0).push(b1).push(b2).push(b3)) == t3);
        assert(be_val(e.push(b0).push(b1).push(b2).push(b3).push(b4)) == t4);
        assert(be_val(e.push(b0).push(b1).push(b2).push(b3).push(b4).push(b5)) == t5);
        assert(be_val(e.push(b0).push(b1).push(b2).push(b3).push(b4).push(b5).push(b6)) == t6);
        assert(be_val(e.push(b0).push(b1).push(b2).push(b3).push(b4).push(b5).push(b6).push(b7))
            == x);
    }
    out.push(b0);
    out.push(b1);
    out.push(b2);
    out.push(b3);
    out.push(b4);
    out.push(b5);
    out.push(b6);
    out.push(b7);
    proof {
        let e = Seq::<u8>::empty();
        let n = old(out)@.len() as int;
        assert(out@.subrange(0, n) =~= old(out)@);
        assert(out@.subrange(n, n + 8) =~= e.push(b0).push(b1).push(b2).push(b3).push(b4).push(
            b5,
        ).push(b6).push(b7));
    }
}

/// Serialize one report into its fixed frame: eight big-endian bytes of the
/// timestamp's bit pattern, one window-size byte, eight big-endian bytes per
/// averaged channel value in channel order, and the two terminator bytes
/// `\r\n`. No length prefix, no checksum.
pub fn encode_report(timestamp_bits: u64, window_size: u8, channel_bits: &Vec<u64>) -> (r: Vec<
    u8,
>)
    requires
        11 + 8 * channel_bits@.len() <= usize::MAX,
    ensures
        r@.len() == 11 + 8 * channel_bits@.len(),
        be_val(r@.subrange(0, 8)) == timestamp_bits,
        r@[8] == window_size,
        forall|i: int|
            0 <= i < channel_bits@.len() ==> be_val(
                r@.subrange(9 + 8 * i, 17 + 8 * i),
            ) == channel_bits@[i],
        r@[r@.len() - 2] == 13,
        r@[r@.len() - 1] == 10,
{
    let mut out: Vec<u8> = Vec::new();
    push_be8(&mut out, timestamp_bits);
    let ghost header = out@;
    out.push(window_size);
    proof {
        assert(out@.subrange(0, 8) =~= header.subrange(0, 8));
    }
    let n = channel_bits.len();
    let mut i: usize = 0;
    while i < n
        invariant
            n == channel_bits@.len(),
            11 + 8 * n <= usize::MAX,
            i <= n,
            out@.len() == 9 + 8 * i,
            be_val(out@.subrange(0, 8)) == timestamp_bits,
            out@[8] == window_size,
            forall|j: int|
                0 <= j < i ==> be_val(out@.subrange(9 + 8 * j, 17 + 8 * j)) == channel_bits@[j],
        decreases n - i,
    {
        let ghost prev = out@;
        push_be8(&mut out, channel_bits[i]);
        proof {
            assert(out@.subrange(0, 8) =~= prev.subrange(0, 8));
            assert forall|j: int| 0 <= j < i implies be_val(
                out@.subrange(9 + 8 * j, 17 + 8 * j),
            ) == channel_bits@[j] by {
                assert(out@.subrange(9 + 8 * j, 17 + 8 * j) =~= prev.subrange(
                    9 + 8 * j,
                    17 + 8 * j,
                ));
            }
            assert(out@.subrange(9 + 8 * i, 17 + 8 * i) =~= out@.subrange(
                prev.len() as int,
                out@.len() as int,
            ));
        }
        i = i + 1;
    }
    let ghost before_tail = out@;
    out.push(13);
    out.push(10);
    proof {
        assert(out@.subrange(0, 8) =~= before_tail.subrange(0, 8));
        assert forall|j: int| 0 <= j < n implies be_val(out@.subrange(9 + 8 * j, 17 + 8 * j))
            == channel_bits@[j] by {
            assert(out@.subrange(9 + 8 * j, 17 + 8 * j) =~= before_tail.subrange(
                9 + 8 * j,
                17 + 8 * j,
            ));
        }
    }
    out
}

/// What an inbound line means: exactly twelve bytes, the four tag bytes
/// `frq:`, then eight big-endian bytes spelling a float's bit pattern. Every
/// other length or tag is ignored and yields 0, the bit pattern of the
/// sentinel value 0.0.
pub open spec fn spec_parse_command(s: Seq<u8>) -> u64 {
    if s.len() == 12 && s[0] == 102 && s[1] == 114 && s[2] == 113 && s[3] == 58 {
        be_val(s.subrange(4, 12)) as u64
    } else {
        0
    }
}

/// Parse one inbound line (without its newline delimiter) into the commanded
/// bit pattern, or 0 for every malformed line.
pub fn parse_command(buf: &Vec<u8>) -> (r: u64)
    ensures
        r == spec_parse_command(buf@),
{
    if buf.len() != 12 {
        return 0;
    }
    if !(buf[0] == 102 && buf[1] == 114 && buf[2] == 113 && buf[3] == 58) {
        return 0;
    }
    let mut acc: u64 = 0;
    let mut i: usize = 4;
    while i < 12
        invariant
            buf@.len() == 12,
            4 <= i <= 12,
            acc == be_val(buf@.subrange(4, i as int)),
            acc < pow256((i - 4) as nat),
        decreases 12 - i,
    {
        proof {
            assert(buf@.subrange(4, i + 1) =~= buf@.subrange(4, i as int).push(buf@[i as int]));
            lemma_be_val_push(buf@.subrange(4, i as int), buf@[i as int]);
            assert(pow256(((i + 1) - 4) as nat) == 256 * pow256((i - 4) as nat));
            reveal_with_fuel(pow256, 9);
            assert(pow256(8) == 0x1_0000_0000_0000_0000);
            lemma_pow256_monotonic((i + 1 - 4) as nat, 8);
        }
        acc = acc * 256 + (buf[i] as u64);
        i = i + 1;
    }
    proof {
        lemma_be_val_bound(buf@.subrange(4, 12));
        reveal_with_fuel(pow256, 9);
        assert(pow256(8) == 0x1_0000_0000_0000_0000);
    }
    acc
}

/// `pow256` grows with its exponent.
proof fn lemma_pow256_monotonic(a: nat, b: nat)
    requires
        a <= b,
    ensures
        pow256(a) <= pow256(b),
    decreases b,
{
    if a < b {
        lemma_pow256_monotonic(a, (b - 1) as nat);
        assert(pow256(b) == 256 * pow256((b - 1) as nat));
    }
}

/// How many inbound bytes the receive buffer holds at most; comfortably more
/// than the one twelve-byte command frame.
pub const INBOUND_CAPACITY: usize = 32;

/// The bounded receive buffer of the inbound command stream: bytes gather
/// until a newline delimits a line, which is then parsed; a byte that would
/// overflow the buffer discards the partial line instead, and the stream
/// goes on accepting input.
pub struct CommandAccumulator {
    buf: Vec<u8>,
}

impl View for CommandAccumulator {
    type V = Seq<u8>;

    /// The bytes of the partial line gathered so far.
    closed spec fn view(&self) -> Seq<u8> {
        self.buf@
    }
}

impl CommandAccumulator {
    /// The buffer never outgrows its capacity.
    pub closed spec fn wf(&self) -> bool {
        self@.len() <= INBOUND_CAPACITY
    }

    /// An empty receive buffer.
    pub fn new() -> (r: CommandAccumulator)
        ensures
            r@ == Seq::<u8>::empty(),
            r.wf(),
    {
        CommandAccumulator { buf: Vec::new() }
    }

    /// Accept one inbound byte. A newline completes the line: the gathered
    /// bytes are parsed and discarded and the result is handed back. A byte
    /// that would grow the line past the buffer's capacity discards the
    /// partial line, itself included. Every other byte is gathered.
    pub fn accept_byte(&mut self, b: u8) -> (r: Option<u64>)
        requires
            old(self).wf(),
        ensures
            final(self).wf(),
            b == 10 ==> r == Some(spec_parse_command(old(self)@)) && final(self)@
                == Seq::<u8>::empty(),
            b != 10 && old(self)@.len() == INBOUND_CAPACITY ==> r is None && final(self)@
                == Seq::<u8>::empty(),
            b != 10 && old(self)@.len() < INBOUND_CAPACITY ==> r is None && final(self)@ == old(
                self,
            )@.push(b),
    {
        if b == 10 {
            let parsed = parse_command(&self.buf);
            self.buf.clear();
            Some(parsed)
        } else if self.buf.len() == INBOUND_CAPACITY {
            self.buf.clear();
            None
        } else {
            self.buf.push(b);
            None
        }
    }
}

} // verus!
