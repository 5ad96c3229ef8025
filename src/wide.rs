//! UTF-16 encodings handed to the operating system.
use vstd::prelude::*;
use vstd::string::*;

verus! {

/// The UTF-16 code units of one character.
pub open spec fn utf16_of_char(c: char) -> Seq<u16> {
    let v = c as u32;
    if v < 0x10000 {
        seq![v as u16]
    } else {
        seq![(0xD800 + (v - 0x10000) / 0x400) as u16, (0xDC00 + (v - 0x10000) % 0x400) as u16]
    }
}

/// The UTF-16 code units of a sequence of characters.
pub open spec fn utf16_of(s: Seq<char>) -> Seq<u16>
    decreases s.len(),
{
    if s.len() == 0 {
        Seq::empty()
    } else {
        utf16_of(s.drop_last()) + utf16_of_char(s.last())
    }
}

/// Relies on `str::encode_utf16`: the UTF-16 code units of the string, in order.
#[verifier::external_body]
fn encode_utf16(s: &str) -> (r: Vec<u16>)
    ensures
        r@ == utf16_of(s@),
{
    s.encode_utf16().collect()
}

/// The string as a NUL-terminated UTF-16 buffer.
pub fn to_wide_nul(s: &str) -> (r: Vec<u16>)
    ensures
        r@ == utf16_of(s@).push(0),
{
    let mut r = encode_utf16(s);
    r.push(0);
    r
}

/// The code unit of `=`, which parts a key from its value.
pub const EQUALS_UNIT: u16 = 0x3D;

/// One `KEY=VALUE` entry of an environment block, with its terminator.
pub open spec fn env_entry(key: Seq<char>, value: Seq<char>) -> Seq<u16> {
    utf16_of(key) + seq![EQUALS_UNIT] + utf16_of(value) + seq![0u16]
}

/// The entries of an environment block, one after the other, in order.
pub open spec fn env_entries(env: Seq<(String, String)>) -> Seq<u16>
    decreases env.len(),
{
    if env.len() == 0 {
        Seq::empty()
    } else {
        env_entries(env.drop_last()) + env_entry(env.last().0@, env.last().1@)
    }
}

/// A whole environment block: each entry terminated, then one more
/// terminator; an empty set of entries is two terminators.
pub open spec fn env_block(env: Seq<(String, String)>) -> Seq<u16> {
    if env.len() == 0 {
        seq![0u16, 0u16]
    } else {
        env_entries(env).push(0)
    }
}

/// Encodes `KEY=VALUE` pairs as a Unicode environment block.
pub fn environment_block_unicode(env: &Vec<(String, String)>) -> (r: Vec<u16>)
    ensures
        r@ == env_block(env@),
{
    if env.len() == 0 {
        return vec![0u16, 0u16];
    }
    let mut b: Vec<u16> = Vec::new();
    let mut i: usize = 0;
    while i < env.len()
        invariant
            i <= env@.len(),
            b@ == env_entries(env@.subrange(0, i as int)),
        decreases env@.len() - i,
    {
        let (key, value) = &env[i];
        let mut k = encode_utf16(key.as_str());
        let mut v = encode_utf16(value.as_str());
        b.append(&mut k);
        b.push(EQUALS_UNIT);
        b.append(&mut v);
        b.push(0);
        proof {
            let next = env@.subrange(0, i + 1);
            assert(next.drop_last() =~= env@.subrange(0, i as int));
        }
        i = i + 1;
    }
    assert(env@.subrange(0, env@.len() as int) =~= env@);
    b.push(0);
    b
}

/// The layout of an environment block: no variables give exactly two
/// terminators; otherwise the block is the entries in the order given, each
/// `KEY=VALUE` followed by its own terminator, and then one terminator more,
/// so that it ends in two terminators.
pub proof fn environment_block_layout(env: Seq<(String, String)>)
    ensures
        env.len() == 0 ==> env_block(env) == seq![0u16, 0u16],
        env.len() > 0 ==> env_block(env) == env_entries(env.drop_last()) + env_entry(
            env.last().0@,
            env.last().1@,
        ) + seq![0u16],
        env.len() > 0 ==> env_block(env).len() >= 2,
        env.len() > 0 ==> env_block(env)[env_block(env).len() - 1] == 0,
        env.len() > 0 ==> env_block(env)[env_block(env).len() - 2] == 0,
{
    if env.len() > 0 {
        let rest = env_entries(env.drop_last());
        let last = env_entry(env.last().0@, env.last().1@);
        assert(env_block(env) =~= rest + last + seq![0u16]);
    }
}

/// A single variable `key` set to `value` is encoded as `key=value` followed
/// by two terminators.
pub proof fn environment_block_single(key: String, value: String)
    ensures
        env_block(seq![(key, value)]) == utf16_of(key@) + seq![EQUALS_UNIT] + utf16_of(value@)
            + seq![0u16, 0u16],
{
    let env = seq![(key, value)];
    assert(env.drop_last() =~= Seq::<(String, String)>::empty());
    assert(env_entries(env.drop_last()) == Seq::<u16>::empty());
    assert(env.last() == (key, value));
    assert(env_entries(env) =~= env_entry(key@, value@));
    assert(env_block(env) =~= utf16_of(key@) + seq![EQUALS_UNIT] + utf16_of(value@) + seq![0u16, 0u16]);
}

/// A program name followed by its arguments, each after one space.
pub open spec fn command_line(program: Seq<char>, args: Seq<String>) -> Seq<char>
    decreases args.len(),
{
    if args.len() == 0 {
        program
    } else {
        command_line(program, args.drop_last()) + seq![' '] + args.last()@
    }
}

/// Joins a program name and its arguments with single spaces. Arguments are
/// not quoted or escaped.
pub fn build_commandline(program: &str, args: &Vec<String>) -> (r: String)
    ensures
        r@ == command_line(program@, args@),
{
    let mut buf = String::from_str(program);
    let mut i: usize = 0;
    while i < args.len()
        invariant
            i <= args@.len(),
            buf@ == command_line(program@, args@.subrange(0, i as int)),
        decreases args@.len() - i,
    {
        buf.append(" ");
        buf.append(args[i].as_str());
        proof {
            let next = args@.subrange(0, i + 1);
            assert(next.drop_last() =~= args@.subrange(0, i as int));
            reveal_strlit(" ");
        }
        i = i + 1;
    }
    assert(args@.subrange(0, args@.len() as int) =~= args@);
    buf
}

} // verus!
