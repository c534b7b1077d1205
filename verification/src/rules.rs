//! The stateless rules: each looks at one transaction alone.
use vstd::prelude::*;

use crate::amount::{
    law_large_amounts_by_pattern, law_more_than_is_monotone, more_than, LARGE_AMOUNT_THRESHOLD,
};
use crate::transaction::{texts, Transaction, TransactionView};

verus! {

/// Transactions from this hour of the day on are at an unusual hour.
pub const UNUSUAL_FROM_HOUR: u32 = 1;

/// Transactions before this hour of the day may be at an unusual hour.
pub const UNUSUAL_UNTIL_HOUR: u32 = 4;

/// The transaction's amount is large.
pub open spec fn has_large_amount(t: TransactionView) -> bool {
    more_than(t.amount.bits, LARGE_AMOUNT_THRESHOLD as nat)
}

/// The transaction happened in the small hours, in UTC.
pub open spec fn at_unusual_hour(t: TransactionView) -> bool {
    UNUSUAL_FROM_HOUR <= t.timestamp.hour() < UNUSUAL_UNTIL_HOUR
}

/// The decimal writing of a number below ten.
pub open spec fn digit(n: int) -> Seq<char> {
    seq![(('0' as int) + n) as char]
}

/// The reason given for a large amount.
pub open spec fn large_amount_reason(text: Seq<char>) -> Seq<char> {
    "amount "@ + text + " exceeds threshold 10000"@
}

/// The reason given for an unusual hour.
pub open spec fn unusual_hour_reason(hour: int) -> Seq<char> {
    "transaction occurred at unusual hour ("@ + digit(hour) + ":00 UTC)"@
}

/// The reasons that the stateless rules give for flagging a transaction.
pub open spec fn rule_reasons(t: TransactionView) -> Seq<Seq<char>> {
    let amount = if has_large_amount(t) {
        seq![large_amount_reason(t.amount.text)]
    } else {
        Seq::empty()
    };
    let hour = if at_unusual_hour(t) {
        seq![unusual_hour_reason(t.timestamp.hour())]
    } else {
        Seq::empty()
    };
    amount + hour
}

/// Writes a number from one to three.
fn write_hour(hour: u32) -> (text: &'static str)
    requires
        UNUSUAL_FROM_HOUR <= hour < UNUSUAL_UNTIL_HOUR,
    ensures
        text@ == digit(hour as int),
{
    proof {
        reveal_strlit("1");
        reveal_strlit("2");
        reveal_strlit("3");
        assert("1"@ =~= digit(1));
        assert("2"@ =~= digit(2));
        assert("3"@ =~= digit(3));
    }
    match hour {
        1 => "1",
        2 => "2",
        _ => "3",
    }
}

/// Puts a text between two others.
fn enclose(before: &str, text: &str, after: &str) -> (whole: String)
    ensures
        whole@ == before@ + text@ + after@,
{
    let mut whole = before.to_owned();
    whole.append(text);
    whole.append(after);
    whole
}

/// Runs the stateless rules and gives the reasons for those that matched, the
/// large amount first.
pub fn evaluate_rules(transaction: &Transaction) -> (reasons: Vec<String>)
    ensures
        texts(reasons@) == rule_reasons(transaction@),
        ({
            let large = 0x40C3_8800_0000_0000 < transaction.amount.bits <= 0x7FF0_0000_0000_0000;
            let second = transaction.timestamp@.secs % 86_400;
            let unusual = 3_600 <= second < 14_400;
            &&& reasons@.len() == (if large {
                1int
            } else {
                0
            }) + (if unusual {
                1int
            } else {
                0
            })
            &&& large ==> reasons@[0]@ == "amount "@ + transaction.amount.text@
                + " exceeds threshold 10000"@
            &&& unusual ==> reasons@.last()@ == "transaction occurred at unusual hour ("@ + (
            if second < 7_200 {
                "1"@
            } else if second < 10_800 {
                "2"@
            } else {
                "3"@
            }) + ":00 UTC)"@
        }),
{
    let mut reasons: Vec<String> = Vec::new();
    if transaction.amount.is_large() {
        reasons.push(
            enclose("amount ", transaction.amount.text.as_str(), " exceeds threshold 10000"),
        );
    }
    let hour: u32 = transaction.timestamp.hour();
    if UNUSUAL_FROM_HOUR <= hour && hour < UNUSUAL_UNTIL_HOUR {
        reasons.push(
            enclose("transaction occurred at unusual hour (", write_hour(hour), ":00 UTC)"),
        );
    }
    assert(texts(reasons@) =~= rule_reasons(transaction@));
    proof {
        law_rule_reasons_word_for_word(transaction@);
        law_large_amounts_by_pattern(transaction.amount.bits);
        assert(texts(reasons@).len() == reasons@.len());
        if reasons@.len() > 0 {
            assert(texts(reasons@)[0] == reasons@[0]@);
            assert(texts(reasons@)[reasons@.len() - 1] == reasons@.last()@);
        }
    }
    reasons
}

/// The stateless rules are silent exactly on a transaction that is neither
/// large nor at an unusual hour, and give one reason for each rule that
/// matches.
pub proof fn law_one_reason_per_rule(t: TransactionView)
    ensures
        rule_reasons(t).len() == (if has_large_amount(t) {
            1int
        } else {
            0
        }) + (if at_unusual_hour(t) {
            1int
        } else {
            0
        }),
        rule_reasons(t).len() == 0 <==> !has_large_amount(t) && !at_unusual_hour(t),
{
}

/// The reasons, word for word: that of the amount for a number above ten
/// thousand, and that of the hour for an instant from 3600 up to 14400 seconds
/// into its day.
pub proof fn law_rule_reasons_word_for_word(t: TransactionView)
    ensures
        ({
            let second = t.timestamp.secs % 86_400;
            let amount = if more_than(t.amount.bits, 10_000) {
                seq!["amount "@ + t.amount.text + " exceeds threshold 10000"@]
            } else {
                Seq::empty()
            };
            let hour = if 3_600 <= second < 14_400 {
                seq![
                    "transaction occurred at unusual hour ("@ + (if second < 7_200 {
                        "1"@
                    } else if second < 10_800 {
                        "2"@
                    } else {
                        "3"@
                    }) + ":00 UTC)"@,
                ]
            } else {
                Seq::empty()
            };
            rule_reasons(t) == amount + hour
        }),
{
    reveal_strlit("1");
    reveal_strlit("2");
    reveal_strlit("3");
    assert("1"@ =~= digit(1));
    assert("2"@ =~= digit(2));
    assert("3"@ =~= digit(3));
}

/// The reason for a large amount is given exactly for an amount that is a
/// number above ten thousand.
pub proof fn law_large_amount_is_flagged(t: TransactionView)
    ensures
        rule_reasons(t).contains("amount "@ + t.amount.text + " exceeds threshold 10000"@)
            <==> more_than(t.amount.bits, 10_000),
        more_than(t.amount.bits, 10_000) ==> rule_reasons(t).len() > 0,
{
    law_rule_reasons_word_for_word(t);
    lemma_reasons_differ(t.amount.text);
    let reason = "amount "@ + t.amount.text + " exceeds threshold 10000"@;
    if more_than(t.amount.bits, 10_000) {
        assert(rule_reasons(t)[0] == reason);
    }
}

/// A reason for the hour is given exactly for an instant from 1:00 up to 4:00
/// of its day, on every day.
pub proof fn law_unusual_hour_is_flagged(t: TransactionView)
    ensures
        (exists|i: int|
            0 <= i < rule_reasons(t).len() && "transaction occurred at unusual hour ("@.is_prefix_of(
                #[trigger] rule_reasons(t)[i],
            )) <==> 3_600 <= t.timestamp.secs % 86_400 < 14_400,
        3_600 <= t.timestamp.secs % 86_400 < 14_400 ==> rule_reasons(t).len() > 0,
{
    law_rule_reasons_word_for_word(t);
    lemma_reasons_differ(t.amount.text);
    let start = "transaction occurred at unusual hour ("@;
    if 3_600 <= t.timestamp.secs % 86_400 < 14_400 {
        let last = rule_reasons(t).len() - 1;
        assert(rule_reasons(t)[last].subrange(0, start.len() as int) =~= start);
        assert(start.is_prefix_of(rule_reasons(t)[last]));
    }
}

/// The reasons for a large amount and for an unusual hour never read alike.
proof fn lemma_reasons_differ(text: Seq<char>)
    ensures
        !"transaction occurred at unusual hour ("@.is_prefix_of(
            "amount "@ + text + " exceeds threshold 10000"@,
        ),
        forall|rest: Seq<char>, more: Seq<char>|
            #[trigger] ("transaction occurred at unusual hour ("@ + rest + more) != "amount "@ + text
                + " exceeds threshold 10000"@,
{
    reveal_strlit("amount ");
    reveal_strlit("transaction occurred at unusual hour (");
    let start = "transaction occurred at unusual hour ("@;
    let reason = "amount "@ + text + " exceeds threshold 10000"@;
    assert(reason[0] == 'a');
    if start.is_prefix_of(reason) {
        assert(reason.subrange(0, start.len() as int)[0] == 't');
    }
    assert forall|rest: Seq<char>, more: Seq<char>| #[trigger] (start + rest + more) != reason by {
        assert((start + rest + more)[0] == 't');
    }
}

/// The rule on amounts is monotone: where an amount is flagged, so is every
/// amount whose double is greater, with the same hour or another.
pub proof fn law_amount_rule_is_monotone(t: TransactionView, u: TransactionView)
    requires
        rule_reasons(t).contains("amount "@ + t.amount.text + " exceeds threshold 10000"@),
        t.amount.bits <= u.amount.bits <= 0x7FF0_0000_0000_0000,
    ensures
        rule_reasons(u).contains("amount "@ + u.amount.text + " exceeds threshold 10000"@),
{
    law_large_amount_is_flagged(t);
    law_large_amount_is_flagged(u);
    law_more_than_is_monotone(t.amount.bits, u.amount.bits, 10_000);
}

/// The rules read the amount and the time of day, and nothing else: two
/// transactions of one amount, a whole number of days apart, get the same
/// reasons, whoever made them and where.
pub proof fn law_rules_read_amount_and_time_of_day(
    t: TransactionView,
    u: TransactionView,
    days: int,
)
    requires
        u.amount == t.amount,
        u.timestamp.secs == t.timestamp.secs + 86_400 * days,
    ensures
        rule_reasons(u) == rule_reasons(t),
{
    law_rule_reasons_word_for_word(t);
    law_rule_reasons_word_for_word(u);
}

/// What a call of the rules gives is what their reasons are, word for word.
pub proof fn law_evaluate_rules(t: &Transaction, reasons: Vec<String>)
    requires
        call_ensures(evaluate_rules, (t,), reasons),
    ensures
        reasons@.len() == rule_reasons(t@).len(),
        forall|i: int| 0 <= i < reasons@.len() ==> (#[trigger] reasons@[i])@ == rule_reasons(t@)[i],
        reasons@.len() > 0 <==> more_than(t.amount.bits, 10_000) || 3_600 <= t.timestamp@.secs
            % 86_400 < 14_400,
{
    law_rule_reasons_word_for_word(t@);
    assert forall|i: int| 0 <= i < reasons@.len() implies (#[trigger] reasons@[i])@ == rule_reasons(
        t@,
    )[i] by {
        assert(texts(reasons@)[i] == reasons@[i]@);
    }
    assert(texts(reasons@).len() == reasons@.len());
}

} // verus!
