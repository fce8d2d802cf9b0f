//! Where chunks are stored on disk: an id is sharded over nested directories,
//! `[base]/[hex 0-1]/[hex 2-3]/[hex 4-5]/[hex 6-31]`, and a chunk is the file
//! `[index].dat` inside its file's directory. Paths are `/`-separated text.
use vstd::prelude::*;
use crate::text::{decimal, hex_digit, lower_hex, push_char, push_lower_hex, push_signed_decimal, signed_decimal};
use vstd::string::StrSliceExecFns;
use vstd::string::StringExecFns;

verus! {

/// A path with one more component, as `PathBuf::push` forms it: an absolute
/// component replaces the path, and otherwise a separator is put between the two
/// unless the path is empty or already ends in one.
pub open spec fn push_component(path: Seq<char>, component: Seq<char>) -> Seq<char> {
    if component.len() > 0 && component[0] == '/' {
        component
    } else if path.len() == 0 || path.last() == '/' {
        path + component
    } else {
        path + seq!['/'] + component
    }
}

/// The 32 lower-case hexadecimal digits of a 128-bit id, most significant first.
pub open spec fn id_hex(id: u128) -> Seq<char> {
    lower_hex(id as nat, 32)
}

/// The directory of an id below `base`: its hex digits split after the second,
/// fourth and sixth digit.
pub open spec fn sharded(id: u128, base: Seq<char>) -> Seq<char> {
    let hex = id_hex(id);
    push_component(
        push_component(
            push_component(push_component(base, hex.subrange(0, 2)), hex.subrange(2, 4)),
            hex.subrange(4, 6),
        ),
        hex.subrange(6, 32),
    )
}

/// The path of a chunk file inside the directory `dir`.
pub open spec fn with_index(dir: Seq<char>, index: i64) -> Seq<char> {
    push_component(dir, signed_decimal(index as int)) + seq!['.', 'd', 'a', 't']
}

/// Appends a path component to `path` as `PathBuf::push` does.
pub fn push_path_component(path: &mut String, component: &str)
    ensures
        final(path)@ == push_component(old(path)@, component@),
{
    let component_len = component.unicode_len();
    if component_len > 0 && component.get_char(0) == '/' {
        *path = String::from_str(component);
        return;
    }
    let len = path.as_str().unicode_len();
    if len > 0 && path.as_str().get_char(len - 1) != '/' {
        push_char(path, '/');
    }
    path.append(component);
    assert(path@ =~= push_component(old(path)@, component@));
}

/// Generates the nested directory path of an id below `base_path`:
/// `[base_path]/[hex 0-1]/[hex 2-3]/[hex 4-5]/[hex 6-31]`.
pub fn shard_path(id: u128, base_path: &str) -> (path: String)
    ensures
        path@ == sharded(id, base_path@),
{
    let mut hex = String::new();
    push_lower_hex(&mut hex, id, 32);
    assert(hex@ =~= id_hex(id));
    assert(lower_hex(id as nat, 32).len() == 32) by {
        lemma_lower_hex_len(id as nat, 32);
    }
    let hex_str = hex.as_str();
    let mut path = String::from_str(base_path);
    push_path_component(&mut path, hex_str.substring_char(0, 2));
    push_path_component(&mut path, hex_str.substring_char(2, 4));
    push_path_component(&mut path, hex_str.substring_char(4, 6));
    push_path_component(&mut path, hex_str.substring_char(6, 32));
    path
}

/// Appends the file name of chunk `index` to a file's directory: `[index].dat`.
pub fn push_index(path: &mut String, index: i64)
    ensures
        final(path)@ == with_index(old(path)@, index),
{
    let mut name = String::new();
    push_signed_decimal(&mut name, index);
    assert(name@ =~= signed_decimal(index as int));
    push_path_component(path, name.as_str());
    path.append(".dat");
    proof {
        reveal_strlit(".dat");
    }
    assert(path@ =~= with_index(old(path)@, index));
}

/// The path of chunk `index` of the file with this id below `base_path`.
pub fn shard_path_with_index(id: u128, base_path: &str, index: i64) -> (path: String)
    ensures
        path@ == with_index(sharded(id, base_path@), index),
{
    let mut path = shard_path(id, base_path);
    push_index(&mut path, index);
    path
}

pub proof fn lemma_lower_hex_len(v: nat, width: nat)
    ensures
        lower_hex(v, width).len() == width,
    decreases width,
{
    if width > 0 {
        lemma_lower_hex_len(v / 16, (width - 1) as nat);
    }
}


/// Sixteen to the power `width`: how many values `width` hex digits tell apart.
pub open spec fn hex_capacity(width: nat) -> nat
    decreases width,
{
    if width == 0 {
        1
    } else {
        16 * hex_capacity((width - 1) as nat)
    }
}

proof fn lemma_hex_digit_injective(a: nat, b: nat)
    requires
        a < 16,
        b < 16,
        hex_digit(a) == hex_digit(b),
    ensures
        a == b,
{
}

proof fn lemma_lower_hex_injective(a: nat, b: nat, width: nat)
    requires
        a < hex_capacity(width),
        b < hex_capacity(width),
        lower_hex(a, width) == lower_hex(b, width),
    ensures
        a == b,
    decreases width,
{
    if width > 0 {
        let w1 = (width - 1) as nat;
        let ha = lower_hex(a, width);
        assert(ha.last() == hex_digit(a % 16));
        assert(lower_hex(b, width).last() == hex_digit(b % 16));
        lemma_hex_digit_injective(a % 16, b % 16);
        assert(ha.drop_last() =~= lower_hex(a / 16, w1));
        assert(lower_hex(b, width).drop_last() =~= lower_hex(b / 16, w1));
        let cap = hex_capacity(w1);
        assert(a / 16 < cap) by (nonlinear_arith)
            requires
                a < 16 * cap,
        ;
        assert(b / 16 < cap) by (nonlinear_arith)
            requires
                b < 16 * cap,
        ;
        lemma_lower_hex_injective(a / 16, b / 16, w1);
    }
}

proof fn lemma_u128_fits_in_32_hex_digits(id: u128)
    ensures
        (id as nat) < hex_capacity(32),
{
    reveal_with_fuel(hex_capacity, 33);
    assert(hex_capacity(32) == 0x1_0000_0000_0000_0000_0000_0000_0000_0000nat);
}

proof fn lemma_hex_digits_are_not_separators(v: nat, width: nat, i: int)
    requires
        0 <= i < width,
    ensures
        lower_hex(v, width)[i] != '/',
    decreases width,
{
    lemma_lower_hex_len(v, width);
    if i < width - 1 {
        lemma_lower_hex_len(v / 16, (width - 1) as nat);
        lemma_hex_digits_are_not_separators(v / 16, (width - 1) as nat, i);
    }
}

/// The base with a trailing separator, unless it is empty or already has one.
pub open spec fn dir_prefix(base: Seq<char>) -> Seq<char> {
    if base.len() == 0 || base.last() == '/' {
        base
    } else {
        base + seq!['/']
    }
}

/// The part of a sharded path that follows the base directory.
pub open spec fn shard_tail(hex: Seq<char>) -> Seq<char> {
    hex.subrange(0, 2) + seq!['/'] + hex.subrange(2, 4) + seq!['/'] + hex.subrange(4, 6) + seq!['/']
        + hex.subrange(6, 32)
}

proof fn lemma_sharded_closed_form(id: u128, base: Seq<char>)
    ensures
        sharded(id, base) == dir_prefix(base) + shard_tail(id_hex(id)),
{
    let hex = id_hex(id);
    lemma_lower_hex_len(id as nat, 32);
    lemma_hex_digits_are_not_separators(id as nat, 32, 0);
    lemma_hex_digits_are_not_separators(id as nat, 32, 1);
    lemma_hex_digits_are_not_separators(id as nat, 32, 2);
    lemma_hex_digits_are_not_separators(id as nat, 32, 3);
    lemma_hex_digits_are_not_separators(id as nat, 32, 4);
    lemma_hex_digits_are_not_separators(id as nat, 32, 5);
    lemma_hex_digits_are_not_separators(id as nat, 32, 6);
    let p1 = push_component(base, hex.subrange(0, 2));
    assert(p1 =~= dir_prefix(base) + hex.subrange(0, 2));
    let p2 = push_component(p1, hex.subrange(2, 4));
    assert(p2 =~= dir_prefix(base) + hex.subrange(0, 2) + seq!['/'] + hex.subrange(2, 4));
    let p3 = push_component(p2, hex.subrange(4, 6));
    assert(p3 =~= dir_prefix(base) + hex.subrange(0, 2) + seq!['/'] + hex.subrange(2, 4) + seq!['/']
        + hex.subrange(4, 6));
    let p4 = push_component(p3, hex.subrange(6, 32));
    assert(p4 =~= dir_prefix(base) + shard_tail(hex));
}

/// Two different ids never share a directory below the same base.
pub proof fn lemma_shard_path_injective(a: u128, b: u128, base: Seq<char>)
    requires
        sharded(a, base) == sharded(b, base),
    ensures
        a == b,
{
    lemma_sharded_closed_form(a, base);
    lemma_sharded_closed_form(b, base);
    let ha = id_hex(a);
    let hb = id_hex(b);
    lemma_lower_hex_len(a as nat, 32);
    lemma_lower_hex_len(b as nat, 32);
    let n = dir_prefix(base).len();
    let ta = shard_tail(ha);
    let tb = shard_tail(hb);
    assert(ta =~= sharded(a, base).subrange(n as int, n as int + 35));
    assert(tb =~= sharded(b, base).subrange(n as int, n as int + 35));
    assert forall|i: int| 0 <= i < 32 implies ha[i] == hb[i] by {
        if i < 2 {
            assert(ta[i] == ha[i]);
            assert(tb[i] == hb[i]);
        } else if i < 4 {
            assert(ta[i + 1] == ha[i]);
            assert(tb[i + 1] == hb[i]);
        } else if i < 6 {
            assert(ta[i + 2] == ha[i]);
            assert(tb[i + 2] == hb[i]);
        } else {
            assert(ta[i + 3] == ha[i]);
            assert(tb[i + 3] == hb[i]);
        }
    }
    assert(ha =~= hb);
    lemma_u128_fits_in_32_hex_digits(a);
    lemma_u128_fits_in_32_hex_digits(b);
    lemma_lower_hex_injective(a as nat, b as nat, 32);
}


/// The hyphenated form of an id, as UUIDs are displayed: 8, 4, 4, 4 and 12 hex
/// digits separated by `-`.
pub open spec fn hyphenated(id: u128) -> Seq<char> {
    let hex = id_hex(id);
    hex.subrange(0, 8) + seq!['-'] + hex.subrange(8, 12) + seq!['-'] + hex.subrange(12, 16) + seq!['-']
        + hex.subrange(16, 20) + seq!['-'] + hex.subrange(20, 32)
}

/// Appends the hyphenated form of an id.
pub fn push_hyphenated(text: &mut String, id: u128)
    ensures
        final(text)@ == old(text)@ + hyphenated(id),
{
    let mut hex = String::new();
    push_lower_hex(&mut hex, id, 32);
    assert(hex@ =~= id_hex(id));
    proof {
        lemma_lower_hex_len(id as nat, 32);
    }
    let hex_str = hex.as_str();
    text.append(hex_str.substring_char(0, 8));
    push_char(text, '-');
    text.append(hex_str.substring_char(8, 12));
    push_char(text, '-');
    text.append(hex_str.substring_char(12, 16));
    push_char(text, '-');
    text.append(hex_str.substring_char(16, 20));
    push_char(text, '-');
    text.append(hex_str.substring_char(20, 32));
    assert(text@ =~= old(text)@ + hyphenated(id));
}


/// The directory of a file in the simple backend: the hyphenated id below the
/// storage directory.
pub open spec fn flat_dir(storage_dir: Seq<char>, key: u128) -> Seq<char> {
    push_component(storage_dir, hyphenated(key))
}

/// The path of a chunk in the simple backend: `[index].bin` in the file's directory.
pub open spec fn flat_chunk(storage_dir: Seq<char>, key: u128, index: i64) -> Seq<char> {
    push_component(flat_dir(storage_dir, key), signed_decimal(index as int)) + seq!['.', 'b', 'i', 'n']
}

/// The directory the simple backend keeps a file's chunks in.
pub fn flat_file_dir(storage_dir: &str, key: u128) -> (dir: String)
    ensures
        dir@ == flat_dir(storage_dir@, key),
{
    let mut name = String::new();
    push_hyphenated(&mut name, key);
    assert(name@ =~= hyphenated(key));
    let mut dir = String::from_str(storage_dir);
    push_path_component(&mut dir, name.as_str());
    dir
}

/// The file the simple backend keeps a chunk in.
pub fn flat_chunk_path(storage_dir: &str, key: u128, index: i64) -> (path: String)
    ensures
        path@ == flat_chunk(storage_dir@, key, index),
{
    let mut path = flat_file_dir(storage_dir, key);
    let mut name = String::new();
    push_signed_decimal(&mut name, index);
    assert(name@ =~= signed_decimal(index as int));
    push_path_component(&mut path, name.as_str());
    path.append(".bin");
    proof {
        reveal_strlit(".bin");
    }
    assert(path@ =~= flat_chunk(storage_dir@, key, index));
    path
}

} // verus!
