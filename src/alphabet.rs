//! The fixed, totally ordered alphabet of version symbols.

use vstd::prelude::*;

verus! {

/// An ordered list of version symbols; a symbol's rank is its position.
pub struct OrderingAlphabet {
    pub symbols: Vec<String>,
}

impl View for OrderingAlphabet {
    type V = Seq<Seq<char>>;

    open spec fn view(&self) -> Seq<Seq<char>> {
        self.symbols@.map_values(|s: String| s@)
    }
}

/// The rank of `symbol` in `symbols`: the position of its first occurrence.
pub open spec fn rank_of(symbols: Seq<Seq<char>>, symbol: Seq<char>) -> Option<int> {
    symbols.index_of_first(symbol)
}

/// The rank of the version symbol that follows `prefix` in `name`, if `name`
/// starts with `prefix` and the rest is a symbol of the alphabet.
pub open spec fn suffix_rank(name: Seq<char>, prefix: Seq<char>, symbols: Seq<Seq<char>>) -> Option<
    int,
> {
    if prefix.is_prefix_of(name) {
        rank_of(symbols, name.skip(prefix.len() as int))
    } else {
        None
    }
}

/// An optional machine index read as an optional integer.
pub open spec fn opt_int(o: Option<usize>) -> Option<int> {
    match o {
        Some(i) => Some(i as int),
        None => None,
    }
}

/// The ten heavenly stems, in their traditional order.
pub open spec fn tiangan_symbols() -> Seq<Seq<char>> {
    seq![
        "甲"@, "乙"@, "丙"@, "丁"@, "戊"@, "己"@, "庚"@, "辛"@, "壬"@, "癸"@,
    ]
}

/// Relies on str::strip_prefix: `Some` of the rest exactly when `s` starts with `prefix`.
#[verifier::external_body]
pub(crate) fn strip_prefix(s: &str, prefix: &str) -> (r: Option<String>)
    ensures
        r.is_some() == prefix@.is_prefix_of(s@),
        r.is_some() ==> r.unwrap()@ == s@.skip(prefix@.len() as int),
{
    s.strip_prefix(prefix).map(|rest| rest.to_string())
}

/// Builds the alphabet of the ten heavenly stems, ranked 0 to 9.
pub fn generate_tiangan_map() -> (r: OrderingAlphabet)
    ensures
        r@ == tiangan_symbols(),
{
    let mut symbols: Vec<String> = Vec::new();
    symbols.push(String::from_str("甲"));
    symbols.push(String::from_str("乙"));
    symbols.push(String::from_str("丙"));
    symbols.push(String::from_str("丁"));
    symbols.push(String::from_str("戊"));
    symbols.push(String::from_str("己"));
    symbols.push(String::from_str("庚"));
    symbols.push(String::from_str("辛"));
    symbols.push(String::from_str("壬"));
    symbols.push(String::from_str("癸"));
    let r = OrderingAlphabet { symbols };
    assert(r@ =~= tiangan_symbols());
    r
}

impl OrderingAlphabet {
    /// The rank of `symbol`, or `None` when it is not in the alphabet.
    pub fn rank(&self, symbol: &String) -> (r: Option<usize>)
        ensures
            opt_int(r) == rank_of(self@, symbol@),
    {
        let n = self.symbols.len();
        let mut i: usize = 0;
        while i < n
            invariant
                n == self.symbols@.len(),
                i <= n,
                forall|j: int| 0 <= j < i ==> self@[j] != symbol@,
            decreases n - i,
        {
            if self.symbols[i] == *symbol {
                proof {
                    self@.index_of_first_ensures(symbol@);
                    assert(self@[i as int] == symbol@);
                    assert(self@.contains(symbol@));
                }
                return Some(i);
            }
            i = i + 1;
        }
        proof {
            self@.index_of_first_ensures(symbol@);
        }
        None
    }
}

/// The rank of the version symbol that follows `filename_prefix` in `filename`.
pub fn get_tiangan_from_filename(
    filename: &str,
    filename_prefix: &str,
    tiangan_order: &OrderingAlphabet,
) -> (r: Option<usize>)
    ensures
        opt_int(r) == suffix_rank(filename@, filename_prefix@, tiangan_order@),
{
    match strip_prefix(filename, filename_prefix) {
        Some(rest) => tiangan_order.rank(&rest),
        None => None,
    }
}

} // verus!
