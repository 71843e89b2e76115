//! The subscriber report: one line per tracked account and a closing total.

use vstd::prelude::*;
use vstd::string::*;
use num_format::ToFormattedString;

verus! {

/// The character that stands for the decimal digit `d`.
pub open spec fn digit(d: nat) -> char {
    seq!['0', '1', '2', '3', '4', '5', '6', '7', '8', '9'][d as int]
}

/// `n` in decimal, without leading zeros.
pub open spec fn decimal(n: nat) -> Seq<char>
    decreases n,
{
    if n < 10 {
        seq![digit(n)]
    } else {
        decimal(n / 10).push(digit(n % 10))
    }
}

/// `n` in decimal with a comma before every group of three digits, counted
/// from the right: 1234567 reads "1,234,567".
pub open spec fn grouped(n: nat) -> Seq<char>
    decreases n,
{
    if n < 1000 {
        decimal(n)
    } else {
        grouped(n / 1000) + seq![',', digit(n % 1000 / 100), digit(n % 100 / 10), digit(n % 10)]
    }
}

/// The display names of the tracked accounts, in report order.
pub open spec fn tracked_names() -> Seq<Seq<char>> {
    seq![
        "Hiodoshi Ao"@,
        "Otonose Kanade"@,
        "Ichijou Ririka"@,
        "Juufuutei Raden"@,
        "Todoroki Hajime"@,
    ]
}

/// The identifiers under which the provider knows the tracked accounts, in
/// the order of `tracked_names`.
pub open spec fn tracked_ids() -> Seq<Seq<char>> {
    seq![
        "hiodoshiao"@,
        "otonosekanade"@,
        "ichijouririka"@,
        "juufuuteiraden"@,
        "todorokihajime"@,
    ]
}

/// The report line of one account.
pub open spec fn account_line(name: Seq<char>, count: nat) -> Seq<char> {
    name + " has "@ + grouped(count) + " subscribers\n"@
}

/// The lines of the first `k` accounts, one after the other.
pub open spec fn account_lines(names: Seq<Seq<char>>, subs: Seq<u64>, k: nat) -> Seq<char>
    decreases k,
{
    if k == 0 {
        Seq::empty()
    } else {
        account_lines(names, subs, (k - 1) as nat) + account_line(
            names[k - 1],
            subs[k - 1] as nat,
        )
    }
}

/// The closing line of the report.
pub open spec fn total_line(total: nat) -> Seq<char> {
    "Regloss have "@ + grouped(total) + " subscribers in total"@
}

/// The whole report for the tracked accounts.
pub open spec fn report(subs: Seq<u64>, total: nat) -> Seq<char> {
    account_lines(tracked_names(), subs, tracked_names().len()) + total_line(total)
}

/// `num_format::ToFormattedString::to_formatted_string` with `Locale::en`:
/// the decimal digits of `n`, separated by commas into groups of three.
#[verifier::external_body]
fn format_en(n: u64) -> (text: String)
    ensures
        text@ == grouped(n as nat),
{
    n.to_formatted_string(&num_format::Locale::en)
}

/// The identifiers to ask the provider about, in report order.
pub fn ids() -> (ids: Vec<String>)
    ensures
        ids@.len() == tracked_ids().len(),
        forall|i: int| 0 <= i < ids@.len() ==> (#[trigger] ids@[i])@ == tracked_ids()[i],
{
    vec![
        String::from_str("hiodoshiao"),
        String::from_str("otonosekanade"),
        String::from_str("ichijouririka"),
        String::from_str("juufuuteiraden"),
        String::from_str("todorokihajime"),
    ]
}

/// Builds the report from the counts the provider returned: `subs[i]` belongs
/// to the i-th tracked account, `total` is the provider's grand total.
pub fn subscribers_as_str(subs: &Vec<u64>, total: u64) -> (result: String)
    requires
        tracked_names().len() <= subs@.len(),
    ensures
        result@ == report(subs@, total as nat),
{
    let names: Vec<&str> = vec![
        "Hiodoshi Ao",
        "Otonose Kanade",
        "Ichijou Ririka",
        "Juufuutei Raden",
        "Todoroki Hajime",
    ];
    assert(names@.len() == 5);
    assert(forall|k: int| 0 <= k < 5 ==> (#[trigger] names@[k])@ == tracked_names()[k]);
    let mut result = String::new();
    let mut i: usize = 0;
    while i < names.len()
        invariant
            i <= names@.len() == 5 <= subs@.len(),
            forall|k: int| 0 <= k < 5 ==> (#[trigger] names@[k])@ == tracked_names()[k],
            result@ == account_lines(tracked_names(), subs@, i as nat),
        decreases names@.len() - i,
    {
        let ghost before = result@;
        let count = format_en(subs[i]);
        result.append(names[i]);
        result.append(" has ");
        result.append(count.as_str());
        result.append(" subscribers\n");
        assert(result@ =~= before + account_line(tracked_names()[i as int], subs@[i as int] as nat));
        i += 1;
    }
    let ghost lines = result@;
    let sum = format_en(total);
    result.append("Regloss have ");
    result.append(sum.as_str());
    result.append(" subscribers in total");
    assert(result@ =~= lines + total_line(total as nat));
    result
}

} // verus!
