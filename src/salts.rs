use vstd::prelude::*;

verus! {

/// The secrets that unlock one match's downloads, as users submit them.
#[derive(Debug, Clone, Copy, PartialEq, Eq, Structural)]
pub struct Salts {
    pub cluster_id: u32,
    pub match_id: u64,
    pub metadata_salt: Option<u32>,
    pub replay_salt: Option<u32>,
}

/// Which of a match's downloads is meant.
#[derive(Debug, Clone, Copy, PartialEq, Eq, Structural)]
pub enum DataType {
    Meta,
    Demo,
}

/// Which salts of a submission turned out to be usable.
#[derive(Debug, Clone, Copy, PartialEq, Eq, Structural)]
pub struct SaltsResponse {
    pub meta: bool,
    pub replay: bool,
}

pub open spec fn digit_char(d: nat) -> char {
    ((d % 10) + 48) as char
}

/// The decimal digits of `n`, without leading zeros.
pub open spec fn decimal(n: nat) -> Seq<char>
    decreases n,
{
    if n < 10 {
        seq![digit_char(n)]
    } else {
        decimal(n / 10).push(digit_char(n % 10))
    }
}

fn digit_str(d: u64) -> (r: &'static str)
    requires
        d < 10,
    ensures
        r@ == seq![digit_char(d as nat)],
{
    proof {
        reveal_strlit("0");
        reveal_strlit("1");
        reveal_strlit("2");
        reveal_strlit("3");
        reveal_strlit("4");
        reveal_strlit("5");
        reveal_strlit("6");
        reveal_strlit("7");
        reveal_strlit("8");
        reveal_strlit("9");
    }
    let r = if d == 0 {
        "0"
    } else if d == 1 {
        "1"
    } else if d == 2 {
        "2"
    } else if d == 3 {
        "3"
    } else if d == 4 {
        "4"
    } else if d == 5 {
        "5"
    } else if d == 6 {
        "6"
    } else if d == 7 {
        "7"
    } else if d == 8 {
        "8"
    } else {
        "9"
    };
    assert(r@ =~= seq![digit_char(d as nat)]);
    r
}

/// Appends the decimal digits of `n`.
fn push_decimal(s: &mut String, n: u64)
    ensures
        final(s)@ == old(s)@ + decimal(n as nat),
    decreases n,
{
    if n >= 10 {
        push_decimal(s, n / 10);
    }
    s.append(digit_str(n % 10));
    assert(final(s)@ =~= old(s)@ + decimal(n as nat));
}

/// The file type tag a data type's key carries: `"meta"` or `"dem"`.
pub open spec fn data_type_tag(t: DataType) -> Seq<char> {
    match t {
        DataType::Meta => seq!['m', 'e', 't', 'a'],
        DataType::Demo => seq!['d', 'e', 'm'],
    }
}

/// The type code a data type's key name starts with.
pub open spec fn data_type_code(t: DataType) -> Seq<char> {
    match t {
        DataType::Demo => seq!['0', '0', '1'],
        DataType::Meta => seq!['0', '0', '2'],
    }
}

pub open spec fn salt_for(salts: Salts, t: DataType) -> Option<u32> {
    match t {
        DataType::Meta => salts.metadata_salt,
        DataType::Demo => salts.replay_salt,
    }
}

/// The storage file name of a download:
/// `T<code>_M<match>_C<cluster>_S<salt>.<tag>.bz2`, when its salt is known.
pub open spec fn file_name_for(salts: Salts, t: DataType) -> Option<Seq<char>> {
    match salt_for(salts, t) {
        None => None,
        Some(salt) => Some(
            seq!['T'] + data_type_code(t) + seq!['_', 'M'] + decimal(salts.match_id as nat) + seq![
                '_',
                'C',
            ] + decimal(salts.cluster_id as nat) + seq!['_', 'S'] + decimal(salt as nat) + seq!['.']
                + data_type_tag(t) + seq!['.', 'b', 'z', '2'],
        ),
    }
}

impl DataType {
    /// The file type tag of this data type: `"meta"` or `"dem"`.
    pub fn tag(&self) -> (r: &'static str)
        ensures
            r@ == data_type_tag(*self),
    {
        proof {
            reveal_strlit("meta");
            reveal_strlit("dem");
            assert("meta"@ =~= data_type_tag(DataType::Meta));
            assert("dem"@ =~= data_type_tag(DataType::Demo));
        }
        match self {
            DataType::Meta => "meta",
            DataType::Demo => "dem",
        }
    }
}

/// The storage file name of a download, or `None` when its salt is unknown.
pub fn get_file_name(salts: &Salts, data_type: DataType) -> (r: Option<String>)
    ensures
        r matches Some(s) ==> file_name_for(*salts, data_type) == Some(s@),
        r is None ==> file_name_for(*salts, data_type) is None,
{
    let salt = match data_type {
        DataType::Meta => salts.metadata_salt,
        DataType::Demo => salts.replay_salt,
    };
    let salt = match salt {
        None => return None,
        Some(s) => s,
    };
    proof {
        reveal_strlit("T001");
        reveal_strlit("T002");
        reveal_strlit("_M");
        reveal_strlit("_C");
        reveal_strlit("_S");
        reveal_strlit(".");
        reveal_strlit(".bz2");
    }
    let mut name = match data_type {
        DataType::Demo => String::from_str("T001"),
        DataType::Meta => String::from_str("T002"),
    };
    assert(name@ =~= seq!['T'] + data_type_code(data_type));
    name.append("_M");
    push_decimal(&mut name, salts.match_id);
    name.append("_C");
    push_decimal(&mut name, salts.cluster_id as u64);
    name.append("_S");
    push_decimal(&mut name, salt as u64);
    name.append(".");
    name.append(data_type.tag());
    name.append(".bz2");
    assert(name@ =~= file_name_for(*salts, data_type)->Some_0);
    Some(name)
}

/// The submission with only the salts that were confirmed to be usable.
pub fn keep_valid_salts(salts: Salts, metadata_valid: bool, replay_valid: bool) -> (r: Salts)
    ensures
        r.cluster_id == salts.cluster_id,
        r.match_id == salts.match_id,
        r.metadata_salt == if metadata_valid {
            salts.metadata_salt
        } else {
            None
        },
        r.replay_salt == if replay_valid {
            salts.replay_salt
        } else {
            None
        },
{
    Salts {
        cluster_id: salts.cluster_id,
        match_id: salts.match_id,
        metadata_salt: if metadata_valid {
            salts.metadata_salt
        } else {
            None
        },
        replay_salt: if replay_valid {
            salts.replay_salt
        } else {
            None
        },
    }
}

impl SaltsResponse {
    /// Reports which salts of a checked submission are left.
    pub fn from_salts(salts: &Salts) -> (r: SaltsResponse)
        ensures
            r.meta == salts.metadata_salt is Some,
            r.replay == salts.replay_salt is Some,
    {
        SaltsResponse { meta: salts.metadata_salt.is_some(), replay: salts.replay_salt.is_some() }
    }
}

} // verus!
