//! Publishing: the manifest's TOML wire text, base64-encoded together with
//! the archive bytes into the publish request body, around the locally
//! computed content digest.  Sending the request happens outside the
//! library.

use vstd::prelude::*;
use vstd::utf8::encode_utf8;

use crate::common::b64_encode;
use crate::common::b64_of;
use crate::common::checksum;
use crate::common::hex_of;
use crate::common::sha1_of;
use crate::moxen::manifest::MoxCategory;
use crate::moxen::manifest::NormalizedManifest;
use crate::moxen::manifest::NormalizedView;
use crate::moxen::manifest::PackageManifest;

verus! {

// ---------------------------------------------------------------------------
// TOML emission for the normalized manifest
// ---------------------------------------------------------------------------

/// The uppercase hex digit for a value below sixteen.
pub open spec fn hex_digit_upper(n: int) -> char {
    if n == 0 {
        '0'
    } else if n == 1 {
        '1'
    } else if n == 2 {
        '2'
    } else if n == 3 {
        '3'
    } else if n == 4 {
        '4'
    } else if n == 5 {
        '5'
    } else if n == 6 {
        '6'
    } else if n == 7 {
        '7'
    } else if n == 8 {
        '8'
    } else if n == 9 {
        '9'
    } else if n == 10 {
        'A'
    } else if n == 11 {
        'B'
    } else if n == 12 {
        'C'
    } else if n == 13 {
        'D'
    } else if n == 14 {
        'E'
    } else {
        'F'
    }
}

/// A character under TOML basic-string escaping: quote, backslash and every
/// control character other than tab are escaped — with TOML's shorthand
/// escapes where it has them, and a `\u00XX` escape otherwise — and
/// everything else passes through.
pub open spec fn toml_escape_char(c: char) -> Seq<char> {
    if c == '"' {
        seq!['\\', '"']
    } else if c == '\\' {
        seq!['\\', '\\']
    } else if c as u32 == 8 {
        seq!['\\', 'b']
    } else if c as u32 == 10 {
        seq!['\\', 'n']
    } else if c as u32 == 12 {
        seq!['\\', 'f']
    } else if c as u32 == 13 {
        seq!['\\', 'r']
    } else if ((c as u32) < 32 && (c as u32) != 9) || (c as u32) == 127 {
        seq![
            '\\',
            'u',
            '0',
            '0',
            hex_digit_upper((c as u32) as int / 16),
            hex_digit_upper((c as u32) as int % 16),
        ]
    } else {
        seq![c]
    }
}

/// Appends one uppercase hex digit.
fn append_hex_digit_upper(n: u32, out: &mut String)
    requires
        n < 16,
    ensures
        final(out)@ == old(out)@ + seq![hex_digit_upper(n as int)],
{
    if n == 0 {
        out.append("0");
        proof {
            reveal_strlit("0");
            assert(("0")@ =~= seq!['0']);
        }
    } else if n == 1 {
        out.append("1");
        proof {
            reveal_strlit("1");
            assert(("1")@ =~= seq!['1']);
        }
    } else if n == 2 {
        out.append("2");
        proof {
            reveal_strlit("2");
            assert(("2")@ =~= seq!['2']);
        }
    } else if n == 3 {
        out.append("3");
        proof {
            reveal_strlit("3");
            assert(("3")@ =~= seq!['3']);
        }
    } else if n == 4 {
        out.append("4");
        proof {
            reveal_strlit("4");
            assert(("4")@ =~= seq!['4']);
        }
    } else if n == 5 {
        out.append("5");
        proof {
            reveal_strlit("5");
            assert(("5")@ =~= seq!['5']);
        }
    } else if n == 6 {
        out.append("6");
        proof {
            reveal_strlit("6");
            assert(("6")@ =~= seq!['6']);
        }
    } else if n == 7 {
        out.append("7");
        proof {
            reveal_strlit("7");
            assert(("7")@ =~= seq!['7']);
        }
    } else if n == 8 {
        out.append("8");
        proof {
            reveal_strlit("8");
            assert(("8")@ =~= seq!['8']);
        }
    } else if n == 9 {
        out.append("9");
        proof {
            reveal_strlit("9");
            assert(("9")@ =~= seq!['9']);
        }
    } else if n == 10 {
        out.append("A");
        proof {
            reveal_strlit("A");
            assert(("A")@ =~= seq!['A']);
        }
    } else if n == 11 {
        out.append("B");
        proof {
            reveal_strlit("B");
            assert(("B")@ =~= seq!['B']);
        }
    } else if n == 12 {
        out.append("C");
        proof {
            reveal_strlit("C");
            assert(("C")@ =~= seq!['C']);
        }
    } else if n == 13 {
        out.append("D");
        proof {
            reveal_strlit("D");
            assert(("D")@ =~= seq!['D']);
        }
    } else if n == 14 {
        out.append("E");
        proof {
            reveal_strlit("E");
            assert(("E")@ =~= seq!['E']);
        }
    } else {
        out.append("F");
        proof {
            reveal_strlit("F");
            assert(("F")@ =~= seq!['F']);
        }
    }
}

/// TOML basic-string escaping of a character sequence: the result is always
/// the text of a valid basic string.
pub open spec fn toml_escape(s: Seq<char>) -> Seq<char>
    decreases s.len(),
{
    if s.len() == 0 {
        Seq::<char>::empty()
    } else {
        toml_escape_char(s[0]) + toml_escape(s.drop_first())
    }
}

proof fn lemma_toml_escape_snoc(s: Seq<char>, c: char)
    ensures
        toml_escape(s.push(c)) =~= toml_escape(s) + toml_escape_char(c),
    decreases s.len(),
{
    if s.len() == 0 {
        assert(s.push(c).drop_first() =~= s);
    } else {
        assert(s.push(c).drop_first() =~= s.drop_first().push(c));
        lemma_toml_escape_snoc(s.drop_first(), c);
    }
}

/// Appends the escaped text of `s`.
fn append_escaped(s: &str, out: &mut String)
    ensures
        final(out)@ == old(out)@ + toml_escape(s@),
{
    let len = s.unicode_len();
    let mut i: usize = 0;
    proof {
        assert(old(out)@ + toml_escape(s@.take(0)) =~= old(out)@);
    }
    while i < len
        invariant
            len == s@.len(),
            i <= len,
            out@ == old(out)@ + toml_escape(s@.take(i as int)),
        decreases len - i,
    {
        let c = s.get_char(i);
        let u = c as u32;
        if c == '"' {
            out.append("\\\"");
            proof {
                reveal_strlit("\\\"");
                assert(("\\\"")@ =~= toml_escape_char(s@[i as int]));
            }
        } else if c == '\\' {
            out.append("\\\\");
            proof {
                reveal_strlit("\\\\");
                assert(("\\\\")@ =~= toml_escape_char(s@[i as int]));
            }
        } else if u == 8 {
            out.append("\\b");
            proof {
                reveal_strlit("\\b");
                assert(("\\b")@ =~= toml_escape_char(s@[i as int]));
            }
        } else if u == 10 {
            out.append("\\n");
            proof {
                reveal_strlit("\\n");
                assert(("\\n")@ =~= toml_escape_char(s@[i as int]));
            }
        } else if u == 12 {
            out.append("\\f");
            proof {
                reveal_strlit("\\f");
                assert(("\\f")@ =~= toml_escape_char(s@[i as int]));
            }
        } else if u == 13 {
            out.append("\\r");
            proof {
                reveal_strlit("\\r");
                assert(("\\r")@ =~= toml_escape_char(s@[i as int]));
            }
        } else if (u < 32 && u != 9) || u == 127 {
            let ghost before = out@;
            out.append("\\u00");
            append_hex_digit_upper(u / 16, out);
            append_hex_digit_upper(u % 16, out);
            proof {
                reveal_strlit("\\u00");
                assert(("\\u00")@ =~= seq!['\\', 'u', '0', '0']);
                assert(out@ =~= before + toml_escape_char(s@[i as int]));
            }
        } else {
            let piece = s.substring_char(i, i + 1);
            proof {
                assert(piece@ =~= toml_escape_char(s@[i as int]));
            }
            out.append(piece);
        }
        proof {
            assert(s@.take(i + 1) =~= s@.take(i as int).push(s@[i as int]));
            lemma_toml_escape_snoc(s@.take(i as int), s@[i as int]);
            assert(out@ =~= old(out)@ + toml_escape(s@.take(i + 1)));
        }
        i = i + 1;
    }
    proof {
        assert(s@.take(len as int) =~= s@);
    }
}

/// One `key = "value"` line; the label carries the key, equals sign and the
/// opening quote.
pub open spec fn toml_string_line(label: Seq<char>, s: Seq<char>) -> Seq<char> {
    label + toml_escape(s) + "\"\n"@
}

/// Appends one `key = "value"` line.
fn append_string_line(label: &str, v: &str, out: &mut String)
    ensures
        final(out)@ == old(out)@ + toml_string_line(label@, v@),
{
    out.append(label);
    append_escaped(v, out);
    out.append("\"\n");
}

impl MoxCategory {
    /// The category's name on the wire: the variant name in kebab case.
    pub open spec fn toml_name_spec(&self) -> Seq<char> {
        match self {
            MoxCategory::Achievements => "achievements"@,
            MoxCategory::ActionBars => "action-bars"@,
            MoxCategory::Artwork => "artwork"@,
            MoxCategory::AuctionEconomy => "auction-economy"@,
            MoxCategory::AudioVideo => "audio-video"@,
            MoxCategory::BagsInventory => "bags-inventory"@,
            MoxCategory::BossEncounters => "boss-encounters"@,
            MoxCategory::BuffsDebuffs => "buffs-debuffs"@,
            MoxCategory::ChatCommunication => "chat-communication"@,
            MoxCategory::Class => "class"@,
            MoxCategory::Combat => "combat"@,
            MoxCategory::Companions => "companions"@,
            MoxCategory::DataExport => "data-export"@,
            MoxCategory::DevelopmentTools => "development-tools"@,
            MoxCategory::Garrison => "garrison"@,
            MoxCategory::Guild => "guild"@,
            MoxCategory::Library => "library"@,
            MoxCategory::Mail => "mail"@,
            MoxCategory::MapMinimap => "map-minimap"@,
            MoxCategory::Minigames => "minigames"@,
            MoxCategory::Miscellaneous => "miscellaneous"@,
            MoxCategory::Plugins => "plugins"@,
            MoxCategory::Professions => "professions"@,
            MoxCategory::Pvp => "pvp"@,
            MoxCategory::QuestsLevelling => "quests-levelling"@,
            MoxCategory::Roleplay => "roleplay"@,
            MoxCategory::Tooltip => "tooltip"@,
            MoxCategory::TwitchIntegration => "twitch-integration"@,
            MoxCategory::UnitFrames => "unit-frames"@,
        }
    }

    pub fn toml_name(&self) -> (r: String)
        ensures
            r@ == self.toml_name_spec(),
    {
        match self {
            MoxCategory::Achievements => String::from_str("achievements"),
            MoxCategory::ActionBars => String::from_str("action-bars"),
            MoxCategory::Artwork => String::from_str("artwork"),
            MoxCategory::AuctionEconomy => String::from_str("auction-economy"),
            MoxCategory::AudioVideo => String::from_str("audio-video"),
            MoxCategory::BagsInventory => String::from_str("bags-inventory"),
            MoxCategory::BossEncounters => String::from_str("boss-encounters"),
            MoxCategory::BuffsDebuffs => String::from_str("buffs-debuffs"),
            MoxCategory::ChatCommunication => String::from_str("chat-communication"),
            MoxCategory::Class => String::from_str("class"),
            MoxCategory::Combat => String::from_str("combat"),
            MoxCategory::Companions => String::from_str("companions"),
            MoxCategory::DataExport => String::from_str("data-export"),
            MoxCategory::DevelopmentTools => String::from_str("development-tools"),
            MoxCategory::Garrison => String::from_str("garrison"),
            MoxCategory::Guild => String::from_str("guild"),
            MoxCategory::Library => String::from_str("library"),
            MoxCategory::Mail => String::from_str("mail"),
            MoxCategory::MapMinimap => String::from_str("map-minimap"),
            MoxCategory::Minigames => String::from_str("minigames"),
            MoxCategory::Miscellaneous => String::from_str("miscellaneous"),
            MoxCategory::Plugins => String::from_str("plugins"),
            MoxCategory::Professions => String::from_str("professions"),
            MoxCategory::Pvp => String::from_str("pvp"),
            MoxCategory::QuestsLevelling => String::from_str("quests-levelling"),
            MoxCategory::Roleplay => String::from_str("roleplay"),
            MoxCategory::Tooltip => String::from_str("tooltip"),
            MoxCategory::TwitchIntegration => String::from_str("twitch-integration"),
            MoxCategory::UnitFrames => String::from_str("unit-frames"),
        }
    }
}

/// One quoted category name.
pub open spec fn quoted_cat(c: MoxCategory) -> Seq<char> {
    "\""@ + c.toml_name_spec() + "\""@
}

/// The remaining array items, each preceded by a separator.
pub open spec fn category_rest(c: Seq<MoxCategory>) -> Seq<char>
    decreases c.len(),
{
    if c.len() == 0 {
        Seq::<char>::empty()
    } else {
        ", "@ + quoted_cat(c[0]) + category_rest(c.drop_first())
    }
}

proof fn lemma_category_rest_snoc(c: Seq<MoxCategory>, x: MoxCategory)
    ensures
        category_rest(c.push(x)) =~= category_rest(c) + ", "@ + quoted_cat(x),
    decreases c.len(),
{
    if c.len() == 0 {
        assert(c.push(x).drop_first() =~= c);
    } else {
        assert(c.push(x).drop_first() =~= c.drop_first().push(x));
        lemma_category_rest_snoc(c.drop_first(), x);
    }
}

/// The bracketed category array.
pub open spec fn category_array(c: Seq<MoxCategory>) -> Seq<char> {
    "["@ + (if c.len() == 0 {
        Seq::<char>::empty()
    } else {
        quoted_cat(c[0]) + category_rest(c.drop_first())
    }) + "]"@
}

/// Appends the bracketed category array.
fn append_categories(c: &Vec<MoxCategory>, out: &mut String)
    ensures
        final(out)@ == old(out)@ + category_array(c@),
{
    out.append("[");
    if c.len() > 0 {
        out.append("\"");
        let first = c[0].toml_name();
        out.append(first.as_str());
        out.append("\"");
        let ghost base = out@;
        proof {
            assert(base =~= old(out)@ + "["@ + quoted_cat(c@[0]));
            assert(c@.subrange(1, 1) =~= Seq::<MoxCategory>::empty());
        }
        let mut j: usize = 1;
        while j < c.len()
            invariant
                1 <= j <= c@.len(),
                base == old(out)@ + "["@ + quoted_cat(c@[0]),
                out@ == base + category_rest(c@.subrange(1, j as int)),
            decreases c@.len() - j,
        {
            out.append(", ");
            out.append("\"");
            let name = c[j].toml_name();
            out.append(name.as_str());
            out.append("\"");
            proof {
                assert(c@.subrange(1, j + 1) =~= c@.subrange(1, j as int).push(c@[j as int]));
                lemma_category_rest_snoc(c@.subrange(1, j as int), c@[j as int]);
                assert(out@ =~= base + category_rest(c@.subrange(1, j + 1)));
            }
            j = j + 1;
        }
        proof {
            assert(c@.subrange(1, c@.len() as int) =~= c@.drop_first());
        }
    }
    out.append("]");
    proof {
        assert(out@ =~= old(out)@ + category_array(c@));
    }
}

/// The TOML wire text of a normalized manifest: one line per field in a
/// fixed order, an absent version omitted.
pub open spec fn toml_of_norm(v: NormalizedView) -> Seq<char> {
    toml_string_line("name = \""@, v.name) + (match v.version {
        Some(ver) => toml_string_line("version = \""@, ver),
        None => Seq::<char>::empty(),
    }) + toml_string_line("wow_version = \""@, v.wow_version) + "categories = "@ + category_array(
        v.categories,
    ) + "\n"@ + toml_string_line("cksum = \""@, v.cksum)
}

/// Renders the normalized manifest as TOML.
pub fn manifest_toml(nm: &NormalizedManifest) -> (r: String)
    ensures
        r@ == toml_of_norm(nm.norm_view()),
{
    let mut out = String::new();
    append_string_line("name = \"", nm.name.as_str(), &mut out);
    match &nm.version {
        Some(ver) => {
            append_string_line("version = \"", ver.as_str(), &mut out);
        },
        None => {},
    }
    append_string_line("wow_version = \"", nm.wow_version.as_str(), &mut out);
    out.append("categories = ");
    append_categories(&nm.categories, &mut out);
    out.append("\n");
    append_string_line("cksum = \"", nm.cksum.as_str(), &mut out);
    proof {
        assert(out@ =~= toml_of_norm(nm.norm_view()));
    }
    out
}

// ---------------------------------------------------------------------------
// The publish request body
// ---------------------------------------------------------------------------

/// The body of a publish request: the manifest's TOML text and the archive
/// bytes, each base64-encoded.
#[derive(Debug, Clone)]
pub struct PublishRequestBody {
    pub manifest: String,
    pub package: String,
}

/// Encodes the normalized manifest and the archive bytes into the publish
/// request body.
pub fn create_request_body(manifest: NormalizedManifest, pkg: &[u8]) -> (r: PublishRequestBody)
    ensures
        r.manifest@ == b64_of(encode_utf8(toml_of_norm(manifest.norm_view()))),
        r.package@ == b64_of(pkg@),
{
    let toml_text = manifest_toml(&manifest);
    let m = b64_encode(toml_text.as_str().as_bytes());
    let p = b64_encode(pkg);
    PublishRequestBody { manifest: m, package: p }
}

/// Builds the publish request for a packaged bundle: the digest is computed
/// locally over the archive bytes, embedded in the normalized manifest, and
/// the whole body encoded for the wire.
pub fn publish_package(manifest: PackageManifest, pkg: &Vec<u8>) -> (r: PublishRequestBody)
    ensures
        r.manifest@ == b64_of(
            encode_utf8(toml_of_norm(manifest.normalise_spec(hex_of(sha1_of(pkg@))))),
        ),
        r.package@ == b64_of(pkg@),
{
    let cksum = checksum(pkg.as_slice());
    let normalised = manifest.normalise(cksum);
    create_request_body(normalised, pkg.as_slice())
}

/// The digest field of the published manifest is exactly the digest computed
/// over the archive bytes: the registry can recompute and compare it.
pub proof fn lemma_publish_digest(m: &PackageManifest, pkg: Seq<u8>)
    ensures
        m.normalise_spec(hex_of(sha1_of(pkg))).cksum == hex_of(sha1_of(pkg)),
{
}

} // verus!
