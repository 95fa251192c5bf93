use vstd::prelude::*;
use vstd::string::StringExecFns;
use vstd::utf8::{decode_utf8, valid_utf8};

verus! {

/// The major part of a packed version number.
pub open spec fn version_major(version: u32) -> u32 {
    (version >> 22) & 0x7f
}

/// The minor part of a packed version number.
pub open spec fn version_minor(version: u32) -> u32 {
    (version >> 12) & 0x3ff
}

/// The patch part of a packed version number.
pub open spec fn version_patch(version: u32) -> u32 {
    version & 0xfff
}

/// The character that stands for a value below ten.
pub open spec fn digit(value: nat) -> char {
    if value == 0 {
        '0'
    } else if value == 1 {
        '1'
    } else if value == 2 {
        '2'
    } else if value == 3 {
        '3'
    } else if value == 4 {
        '4'
    } else if value == 5 {
        '5'
    } else if value == 6 {
        '6'
    } else if value == 7 {
        '7'
    } else if value == 8 {
        '8'
    } else {
        '9'
    }
}

/// A number written in base ten, without leading zeros.
pub open spec fn decimal(value: nat) -> Seq<char>
    decreases value,
{
    if value < 10 {
        seq![digit(value)]
    } else {
        decimal(value / 10).push(digit(value % 10))
    }
}

/// A packed version number written out as `major.minor.patch`.
pub open spec fn version_text(version: u32) -> Seq<char> {
    decimal(version_major(version) as nat) + seq!['.'] + decimal(version_minor(version) as nat)
        + seq!['.'] + decimal(version_patch(version) as nat)
}

/// The first zero of `raw` stands at `end`.
pub open spec fn is_terminator_at(raw: Seq<i8>, end: int) -> bool {
    &&& 0 <= end < raw.len()
    &&& raw[end] == 0
    &&& forall|i: int| 0 <= i < end ==> #[trigger] raw[i] != 0
}

/// The first `end` characters of `raw`, each taken as the byte it holds.
pub open spec fn bytes_before(raw: Seq<i8>, end: int) -> Seq<u8> {
    Seq::new(end as nat, |i: int| raw[i] as u8)
}

/// `String::from_utf8`: the text that the bytes encode, where they are
/// well-formed UTF-8, and nothing where they are not.
#[verifier::external_body]
fn string_from_utf8(bytes: Vec<u8>) -> (text: Option<String>)
    ensures
        text.is_some() == valid_utf8(bytes@),
        text matches Some(decoded) ==> decoded@ == decode_utf8(bytes@),
{
    String::from_utf8(bytes).ok()
}

/// Reads a name out of the fixed array in which the driver hands it over:
/// the text before the first zero. There is no text where the array holds no
/// zero, or where what stands before it is not well-formed UTF-8.
pub fn vk_to_string(raw_string_array: &[i8]) -> (text: Option<String>)
    ensures
        match text {
            Some(name) => exists|end: int|
                {
                    &&& is_terminator_at(raw_string_array@, end)
                    &&& valid_utf8(#[trigger] bytes_before(raw_string_array@, end))
                    &&& name@ == decode_utf8(bytes_before(raw_string_array@, end))
                },
            None => forall|end: int|
                is_terminator_at(raw_string_array@, end) ==> !valid_utf8(
                    #[trigger] bytes_before(raw_string_array@, end),
                ),
        },
{
    let mut bytes: Vec<u8> = Vec::new();
    let mut i: usize = 0;
    while i < raw_string_array.len()
        invariant
            i <= raw_string_array@.len(),
            forall|j: int| 0 <= j < i ==> #[trigger] raw_string_array@[j] != 0,
            bytes@ == bytes_before(raw_string_array@, i as int),
        decreases raw_string_array@.len() - i,
    {
        let character = raw_string_array[i];
        if character == 0 {
            assert(is_terminator_at(raw_string_array@, i as int));
            assert forall|end: int| is_terminator_at(raw_string_array@, end) implies end == i by {
                if end < i {
                    assert(raw_string_array@[end] != 0);
                }
            }
            return string_from_utf8(bytes);
        }
        bytes.push(#[verifier::truncate] (character as u8));
        i += 1;
        assert(bytes@ =~= bytes_before(raw_string_array@, i as int));
    }
    None
}

/// `ash::vk::api_version_major`: bits 22 to 28 of a packed version number.
pub assume_specification[ ash::vk::api_version_major ](version: u32) -> (major: u32)
    ensures
        major == version_major(version),
;

/// `ash::vk::api_version_minor`: bits 12 to 21 of a packed version number.
pub assume_specification[ ash::vk::api_version_minor ](version: u32) -> (minor: u32)
    ensures
        minor == version_minor(version),
;

/// `ash::vk::api_version_patch`: the lowest twelve bits of a packed version
/// number.
pub assume_specification[ ash::vk::api_version_patch ](version: u32) -> (patch: u32)
    ensures
        patch == version_patch(version),
;

fn digit_text(value: u32) -> (text: &'static str)
    requires
        value < 10,
    ensures
        text@ == seq![digit(value as nat)],
{
    let text = if value == 0 {
        proof {
            reveal_strlit("0");
        }
        "0"
    } else if value == 1 {
        proof {
            reveal_strlit("1");
        }
        "1"
    } else if value == 2 {
        proof {
            reveal_strlit("2");
        }
        "2"
    } else if value == 3 {
        proof {
            reveal_strlit("3");
        }
        "3"
    } else if value == 4 {
        proof {
            reveal_strlit("4");
        }
        "4"
    } else if value == 5 {
        proof {
            reveal_strlit("5");
        }
        "5"
    } else if value == 6 {
        proof {
            reveal_strlit("6");
        }
        "6"
    } else if value == 7 {
        proof {
            reveal_strlit("7");
        }
        "7"
    } else if value == 8 {
        proof {
            reveal_strlit("8");
        }
        "8"
    } else {
        proof {
            reveal_strlit("9");
        }
        "9"
    };
    assert(text@ =~= seq![digit(value as nat)]);
    text
}

/// Writes a number in base ten.
pub fn decimal_string(value: u32) -> (text: String)
    ensures
        text@ == decimal(value as nat),
    decreases value,
{
    if value < 10 {
        String::from_str(digit_text(value))
    } else {
        let mut text = decimal_string(value / 10);
        text.append(digit_text(value % 10));
        assert(text@ =~= decimal(value as nat));
        text
    }
}

/// Renders a packed version number for a diagnostic line.
pub fn vk_version_to_string(version: u32) -> (text: String)
    ensures
        text@ == version_text(version),
{
    let major = ash::vk::api_version_major(version);
    let minor = ash::vk::api_version_minor(version);
    let patch = ash::vk::api_version_patch(version);
    proof {
        reveal_strlit(".");
        assert("."@ =~= seq!['.']);
    }
    let mut text = decimal_string(major);
    text.append(".");
    text.append(decimal_string(minor).as_str());
    text.append(".");
    text.append(decimal_string(patch).as_str());
    text
}

/// Renders a flag for a diagnostic line.
pub fn yes_no<'value>(value: bool) -> (text: &'value str)
    ensures
        text@ == (if value {
            "yes"@
        } else {
            "no"@
        }),
{
    if value {
        "yes"
    } else {
        "no"
    }
}

} // verus!
