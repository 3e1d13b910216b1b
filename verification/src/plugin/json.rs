//! The canonical encoding of a plugin manifest: compact JSON with the fields in
//! declaration order, and its SHA-256 checksum.
use vstd::prelude::*;
use vstd::utf8::encode_utf8;
use crate::digest::{checksum_of, sha256_hex};
use crate::plugin::model::{cap_names, perm_names, ManifestView, PluginManifest};
use crate::text::{chars_of, decimal, decimal_string, hex_digit, hex_digit_exec, string_of, strs};

verus! {

/// The JSON escape of one character.
pub open spec fn escape_char(c: char) -> Seq<char> {
    if c == '"' {
        seq!['\\', '"']
    } else if c == '\\' {
        seq!['\\', '\\']
    } else if c == '\u{8}' {
        seq!['\\', 'b']
    } else if c == '\t' {
        seq!['\\', 't']
    } else if c == '\n' {
        seq!['\\', 'n']
    } else if c == '\u{c}' {
        seq!['\\', 'f']
    } else if c == '\r' {
        seq!['\\', 'r']
    } else if (c as u32) < 32 {
        seq!['\\', 'u', '0', '0', hex_digit((c as u32 / 16) as nat), hex_digit((c as u32 % 16) as nat)]
    } else {
        seq![c]
    }
}

/// The JSON escape of a character sequence.
pub open spec fn escape(s: Seq<char>) -> Seq<char>
    decreases s.len(),
{
    if s.len() == 0 {
        Seq::empty()
    } else {
        escape(s.drop_last()) + escape_char(s.last())
    }
}

/// A JSON string literal.
pub open spec fn json_string(s: Seq<char>) -> Seq<char> {
    seq!['"'] + escape(s) + seq!['"']
}

/// Parts separated by commas.
pub open spec fn joined(parts: Seq<Seq<char>>) -> Seq<char>
    decreases parts.len(),
{
    if parts.len() == 0 {
        Seq::empty()
    } else if parts.len() == 1 {
        parts[0]
    } else {
        joined(parts.drop_last()) + seq![','] + parts.last()
    }
}

/// A JSON array of strings.
pub open spec fn string_array(items: Seq<Seq<char>>) -> Seq<char> {
    seq!['['] + joined(items.map_values(|x: Seq<char>| json_string(x))) + seq![']']
}

/// A JSON object with a single `name` field.
pub open spec fn name_object(x: Seq<char>) -> Seq<char> {
    "{\"name\":"@ + json_string(x) + seq!['}']
}

/// A JSON array of objects with a single `name` field.
pub open spec fn name_array(items: Seq<Seq<char>>) -> Seq<char> {
    seq!['['] + joined(items.map_values(|x: Seq<char>| name_object(x))) + seq![']']
}

/// The compact JSON encoding of a manifest, fields in declaration order.
pub open spec fn manifest_json(m: ManifestView) -> Seq<char> {
    "{\"name\":"@ + json_string(m.name) + ",\"version\":"@ + json_string(m.version)
        + ",\"api_version\":"@ + json_string(m.api_version) + ",\"permissions\":"@ + name_array(
        m.permissions,
    ) + ",\"capabilities\":"@ + name_array(m.capabilities) + ",\"resources\":{\"cpu_millis\":"@
        + decimal(m.resources.cpu_millis as nat) + ",\"ram_mb\":"@ + decimal(
        m.resources.ram_mb as nat,
    ) + "},\"network_access\":"@ + string_array(m.network_access) + ",\"filesystem_scopes\":"@
        + string_array(m.filesystem_scopes) + ",\"runtime_requirements\":"@ + string_array(
        m.runtime_requirements,
    ) + seq!['}']
}

/// The checksum of a manifest: SHA-256 over the UTF-8 bytes of its encoding.
pub open spec fn manifest_checksum(m: ManifestView) -> Seq<char> {
    checksum_of(encode_utf8(manifest_json(m)))
}

fn push_str(out: &mut Vec<char>, s: &str)
    ensures
        final(out)@ == old(out)@ + s@,
{
    let v = chars_of(s);
    let mut i: usize = 0;
    while i < v.len()
        invariant
            i <= v.len(),
            v@ == s@,
            out@ == old(out)@ + s@.subrange(0, i as int),
        decreases v.len() - i,
    {
        out.push(v[i]);
        assert(out@ =~= old(out)@ + s@.subrange(0, i + 1));
        i += 1;
    }
    assert(s@.subrange(0, v.len() as int) =~= s@);
}

fn push_escaped_char(out: &mut Vec<char>, c: char)
    ensures
        final(out)@ == old(out)@ + escape_char(c),
{
    let code: u32 = c as u32;
    if c == '"' {
        out.push('\\');
        out.push('"');
    } else if c == '\\' {
        out.push('\\');
        out.push('\\');
    } else if c == '\u{8}' {
        out.push('\\');
        out.push('b');
    } else if c == '\t' {
        out.push('\\');
        out.push('t');
    } else if c == '\n' {
        out.push('\\');
        out.push('n');
    } else if c == '\u{c}' {
        out.push('\\');
        out.push('f');
    } else if c == '\r' {
        out.push('\\');
        out.push('r');
    } else if code < 32 {
        let b: u8 = code as u8;
        out.push('\\');
        out.push('u');
        out.push('0');
        out.push('0');
        out.push(hex_digit_exec(b / 16));
        out.push(hex_digit_exec(b % 16));
    } else {
        out.push(c);
    }
    assert(final(out)@ =~= old(out)@ + escape_char(c));
}

fn push_json_string(out: &mut Vec<char>, s: &str)
    ensures
        final(out)@ == old(out)@ + json_string(s@),
{
    let v = chars_of(s);
    out.push('"');
    let ghost start = out@;
    let mut i: usize = 0;
    while i < v.len()
        invariant
            i <= v.len(),
            v@ == s@,
            out@ == start + escape(s@.subrange(0, i as int)),
        decreases v.len() - i,
    {
        push_escaped_char(out, v[i]);
        assert(s@.subrange(0, i + 1).drop_last() =~= s@.subrange(0, i as int));
        assert(out@ =~= start + escape(s@.subrange(0, i + 1)));
        i += 1;
    }
    assert(s@.subrange(0, v.len() as int) =~= s@);
    out.push('"');
    assert(final(out)@ =~= old(out)@ + json_string(s@));
}

proof fn lemma_joined_step(parts: Seq<Seq<char>>, i: int)
    requires
        0 <= i < parts.len(),
    ensures
        joined(parts.take(i + 1)) == joined(parts.take(i)) + (if i > 0 {
            seq![',']
        } else {
            Seq::<char>::empty()
        }) + parts[i],
{
    assert(parts.take(i + 1).drop_last() =~= parts.take(i));
    if i == 0 {
        assert(joined(parts.take(0)) =~= Seq::<char>::empty());
        assert(parts.take(1)[0] == parts[0]);
        assert(joined(parts.take(1)) == parts[0]);
        assert(Seq::<char>::empty() + Seq::<char>::empty() + parts[0] =~= parts[0]);
    } else {
        assert(parts.take(i + 1).last() == parts[i]);
    }
}

fn push_string_array(out: &mut Vec<char>, v: &Vec<String>)
    ensures
        final(out)@ == old(out)@ + string_array(strs(v@)),
{
    let ghost parts = strs(v@).map_values(|x: Seq<char>| json_string(x));
    out.push('[');
    let ghost start = out@;
    let mut i: usize = 0;
    while i < v.len()
        invariant
            i <= v.len(),
            parts == strs(v@).map_values(|x: Seq<char>| json_string(x)),
            parts.len() == v.len(),
            out@ == start + joined(parts.take(i as int)),
        decreases v.len() - i,
    {
        let ghost before = out@;
        if i > 0 {
            out.push(',');
        }
        push_json_string(out, v[i].as_str());
        proof {
            lemma_joined_step(parts, i as int);
            assert(parts[i as int] == json_string(v@[i as int]@));
        }
        assert(out@ =~= start + joined(parts.take(i + 1)));
        i += 1;
    }
    assert(parts.take(v.len() as int) =~= parts);
    out.push(']');
    assert(final(out)@ =~= old(out)@ + string_array(strs(v@)));
}

fn push_name_array(out: &mut Vec<char>, v: &Vec<String>)
    ensures
        final(out)@ == old(out)@ + name_array(strs(v@)),
{
    let ghost parts = strs(v@).map_values(|x: Seq<char>| name_object(x));
    out.push('[');
    let ghost start = out@;
    let mut i: usize = 0;
    while i < v.len()
        invariant
            i <= v.len(),
            parts == strs(v@).map_values(|x: Seq<char>| name_object(x)),
            parts.len() == v.len(),
            out@ == start + joined(parts.take(i as int)),
        decreases v.len() - i,
    {
        if i > 0 {
            out.push(',');
        }
        let ghost mid = out@;
        push_str(out, "{\"name\":");
        push_json_string(out, v[i].as_str());
        out.push('}');
        proof {
            lemma_joined_step(parts, i as int);
            assert(parts[i as int] == name_object(v@[i as int]@));
            assert(out@ =~= mid + name_object(v@[i as int]@));
        }
        assert(out@ =~= start + joined(parts.take(i + 1)));
        i += 1;
    }
    assert(parts.take(v.len() as int) =~= parts);
    out.push(']');
    assert(final(out)@ =~= old(out)@ + name_array(strs(v@)));
}

/// The names of a manifest's permissions.
fn permission_names(m: &PluginManifest) -> (r: Vec<String>)
    ensures
        strs(r@) == m@.permissions,
{
    let mut r: Vec<String> = Vec::new();
    let mut i: usize = 0;
    while i < m.permissions.len()
        invariant
            i <= m.permissions.len(),
            strs(r@) == perm_names(m.permissions@).subrange(0, i as int),
        decreases m.permissions.len() - i,
    {
        let ghost before = r@;
        let n = m.permissions[i].name.clone();
        r.push(n);
        assert(strs(r@) =~= strs(before).push(n@));
        assert(strs(r@) =~= perm_names(m.permissions@).subrange(0, i + 1));
        i += 1;
    }
    assert(perm_names(m.permissions@).subrange(0, m.permissions.len() as int) =~= perm_names(m.permissions@));
    r
}

/// The names of a manifest's capabilities.
fn capability_names(m: &PluginManifest) -> (r: Vec<String>)
    ensures
        strs(r@) == m@.capabilities,
{
    let mut r: Vec<String> = Vec::new();
    let mut i: usize = 0;
    while i < m.capabilities.len()
        invariant
            i <= m.capabilities.len(),
            strs(r@) == cap_names(m.capabilities@).subrange(0, i as int),
        decreases m.capabilities.len() - i,
    {
        let ghost before = r@;
        let n = m.capabilities[i].name.clone();
        r.push(n);
        assert(strs(r@) =~= strs(before).push(n@));
        assert(strs(r@) =~= cap_names(m.capabilities@).subrange(0, i + 1));
        i += 1;
    }
    assert(cap_names(m.capabilities@).subrange(0, m.capabilities.len() as int) =~= cap_names(m.capabilities@));
    r
}

/// The canonical JSON encoding of a manifest.
pub fn manifest_to_json(m: &PluginManifest) -> (r: String)
    ensures
        r@ == manifest_json(m@),
{
    let mut out: Vec<char> = Vec::new();
    push_str(&mut out, "{\"name\":");
    push_json_string(&mut out, m.name.as_str());
    push_str(&mut out, ",\"version\":");
    push_json_string(&mut out, m.version.as_str());
    push_str(&mut out, ",\"api_version\":");
    push_json_string(&mut out, m.api_version.as_str());
    push_str(&mut out, ",\"permissions\":");
    let perms = permission_names(m);
    push_name_array(&mut out, &perms);
    push_str(&mut out, ",\"capabilities\":");
    let caps = capability_names(m);
    push_name_array(&mut out, &caps);
    push_str(&mut out, ",\"resources\":{\"cpu_millis\":");
    let cpu = decimal_string(m.resources.cpu_millis as u64);
    push_str(&mut out, cpu.as_str());
    push_str(&mut out, ",\"ram_mb\":");
    let ram = decimal_string(m.resources.ram_mb as u64);
    push_str(&mut out, ram.as_str());
    push_str(&mut out, "},\"network_access\":");
    push_string_array(&mut out, &m.network_access);
    push_str(&mut out, ",\"filesystem_scopes\":");
    push_string_array(&mut out, &m.filesystem_scopes);
    push_str(&mut out, ",\"runtime_requirements\":");
    push_string_array(&mut out, &m.runtime_requirements);
    out.push('}');
    assert(out@ =~= manifest_json(m@));
    string_of(&out)
}

/// The checksum of a manifest's canonical encoding.
pub fn build_checksum(m: &PluginManifest) -> (r: String)
    ensures
        r@ == manifest_checksum(m@),
{
    let json = manifest_to_json(m);
    sha256_hex(json.as_str().as_bytes())
}

} // verus!
