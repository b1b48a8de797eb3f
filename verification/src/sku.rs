use vstd::prelude::*;

use crate::object_id::ascii_to_string;

verus! {

/// True for the characters of the URL-safe alphabet that random identifiers
/// are drawn from: letters, digits, underscore and hyphen.
pub open spec fn is_safe_char(c: char) -> bool {
    ||| c == '_'
    ||| c == '-'
    ||| '0' <= c && c <= '9'
    ||| 'a' <= c && c <= 'z'
    ||| 'A' <= c && c <= 'Z'
}

/// True for the characters a finished SKU may hold after the prefix:
/// uppercase letters, digits, underscore and hyphen.
pub open spec fn is_sku_char(c: char) -> bool {
    ||| c == '_'
    ||| c == '-'
    ||| '0' <= c && c <= '9'
    ||| 'A' <= c && c <= 'Z'
}

/// A character with lowercase letters raised to uppercase; all others stay.
pub open spec fn upper_char(c: char) -> char {
    if 'a' <= c && c <= 'z' {
        ((c as u32 - 32) as u8) as char
    } else {
        c
    }
}

/// The SKU built from an identifier: the prefix `SKU-`, then the identifier
/// with its lowercase letters raised to uppercase.
pub open spec fn spec_sku(id: Seq<char>) -> Seq<char> {
    "SKU-"@ + id.map_values(|c: char| upper_char(c))
}

/// Relies on nanoid's `format` with its URL-safe alphabet: the returned
/// string holds exactly `size` characters, each drawn from `A-Za-z0-9_-`.
#[verifier::external_body]
fn random_id(size: usize) -> (r: String)
    ensures
        r@.len() == size as nat,
        forall|i: int| 0 <= i < r@.len() ==> is_safe_char(#[trigger] r@[i]),
{
    nanoid::format(nanoid::rngs::default, &nanoid::alphabet::SAFE, size)
}

/// Builds the SKU for an identifier of characters from the URL-safe alphabet:
/// the prefix `SKU-`, then the identifier in uppercase.
pub fn format_sku(id: &str) -> (r: String)
    requires
        forall|i: int| 0 <= i < id@.len() ==> is_safe_char(#[trigger] id@[i]),
    ensures
        r@ == spec_sku(id@),
        r@.len() == 4 + id@.len(),
{
    proof {
        reveal_strlit("SKU-");
    }
    let n = id.unicode_len();
    let mut v: Vec<u8> = Vec::new();
    v.push(83);
    v.push(75);
    v.push(85);
    v.push(45);
    proof {
        assert forall|j: int| 0 <= j < 4 implies #[trigger] v@[j] < 128 && v@[j] as char
            == spec_sku(id@)[j] by {
            assert(v@ =~= seq![83u8, 75u8, 85u8, 45u8]);
        }
    }
    let mut i: usize = 0;
    while i < n
        invariant
            n == id@.len(),
            i <= n,
            forall|j: int| 0 <= j < id@.len() ==> is_safe_char(#[trigger] id@[j]),
            v@.len() == 4 + i,
            forall|j: int|
                0 <= j < v@.len() ==> #[trigger] v@[j] < 128 && v@[j] as char == spec_sku(id@)[j],
        decreases n - i,
    {
        let c = id.get_char(i);
        let u = c as u32;
        let b: u8 = if 97 <= u && u <= 122 {
            (u - 32) as u8
        } else {
            u as u8
        };
        v.push(b);
        proof {
            reveal_strlit("SKU-");
            assert(is_safe_char(c));
            assert(b < 128 && b as char == upper_char(c));
            assert(spec_sku(id@)[4 + i] == upper_char(id@[i as int]));
        }
        i = i + 1;
    }
    let r = ascii_to_string(v);
    proof {
        assert(r@ =~= spec_sku(id@));
    }
    r
}

/// Generates a fresh SKU such as `SKU-X7D2F`: the prefix `SKU-`, then five
/// random characters of the URL-safe alphabet raised to uppercase.
pub fn generate_random_sku() -> (r: String)
    ensures
        r@.len() == 9,
        r@.subrange(0, 4) == "SKU-"@,
        forall|i: int| 4 <= i < 9 ==> is_sku_char(#[trigger] r@[i]),
{
    let id = random_id(5);
    let r = format_sku(id.as_str());
    proof {
        reveal_strlit("SKU-");
        assert(r@.subrange(0, 4) =~= "SKU-"@);
        assert forall|i: int| 4 <= i < 9 implies is_sku_char(#[trigger] r@[i]) by {
            assert(r@[i] == upper_char(id@[i - 4]));
            assert(is_safe_char(id@[i - 4]));
        }
    }
    r
}

} // verus!
