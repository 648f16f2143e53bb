//! Where the messages to delete later are remembered: one table per chat,
//! named by the chat's id.
use vstd::prelude::*;
use crate::boundary::is_ascii_digit;
use crate::text::{
    decimal_int, decimal_nat, digits_value, i64_text, lemma_decimal_int_injective, lemma_decimal_nat,
    lemma_decimal_nat_leading,
};

verus! {

/// The table that holds the remembered message ids of a chat: the chat id
/// in decimal, as the database is given it.
pub open spec fn chat_table_name(chat_id: i64) -> Seq<char> {
    decimal_int(chat_id as int)
}

/// The table that holds the remembered message ids of the chat `chat_id`.
pub fn chat_table(chat_id: i64) -> (r: String)
    ensures
        r@ == chat_table_name(chat_id),
{
    i64_text(chat_id)
}

/// Distinct chats keep their messages in distinct tables, so clearing one
/// chat never touches the messages of another.
pub proof fn law_chat_tables_distinct(a: i64, b: i64)
    requires
        a != b,
    ensures
        chat_table_name(a) != chat_table_name(b),
{
    if chat_table_name(a) == chat_table_name(b) {
        lemma_decimal_int_injective(a as int, b as int);
    }
}

/// A chat's table is the chat id in decimal, as `i64::to_string` writes
/// it: a `-` exactly for a negative id, then decimal digits without a
/// leading zero that denote the id's magnitude.
pub proof fn law_chat_table_is_decimal(chat_id: i64)
    ensures
        ({
            let t = chat_table_name(chat_id);
            let sign: int = if chat_id < 0 { 1 } else { 0 };
            let digits = t.subrange(sign, t.len() as int);
            &&& t.len() > sign
            &&& (t[0] == '-') == (chat_id < 0)
            &&& forall|i: int| 0 <= i < digits.len() ==> is_ascii_digit(#[trigger] digits[i])
            &&& digits_value(digits) == if chat_id < 0 { -chat_id } else { chat_id as int }
            &&& (digits[0] == '0' ==> chat_id == 0 && digits.len() == 1)
        }),
{
    let m: nat = if chat_id < 0 { (-chat_id) as nat } else { chat_id as nat };
    lemma_decimal_nat(m);
    let t = chat_table_name(chat_id);
    let sign: int = if chat_id < 0 { 1 } else { 0 };
    assert(t.subrange(sign, t.len() as int) =~= decimal_nat(m));
    if m >= 1 {
        lemma_decimal_nat_leading(m);
    } else {
        assert(decimal_nat(m).len() == 1);
    }
    if chat_id >= 0 {
        assert(is_ascii_digit(decimal_nat(m)[0]));
    }
}

} // verus!
