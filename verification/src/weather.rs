//! The weather report: the chances of fog, rain and the like that an hour
//! of the forecast gives, as one line of text, and the times of sunrise and
//! sunset.

use vstd::prelude::*;
use vstd::std_specs::iter::IteratorSpec;

verus! {

/// The value of a decimal digit.
pub open spec fn digit_of(c: char) -> int {
    c as int - '0' as int
}

/// Whether `c` is one of the digits `0` to `9`.
pub open spec fn is_digit(c: char) -> bool {
    '0' <= c <= '9'
}

/// Whether `text` is made of decimal digits alone.
pub open spec fn all_digits(text: Seq<char>) -> bool {
    forall|i: int| 0 <= i < text.len() ==> is_digit(#[trigger] text[i])
}

/// The number that the digits of `text` spell.
pub open spec fn number_of(text: Seq<char>) -> int
    decreases text.len(),
{
    if text.len() == 0 {
        0
    } else {
        10 * number_of(text.drop_last()) + digit_of(text.last())
    }
}

/// The number that `text` spells, as `str::parse` reads a `u32`: one or
/// more decimal digits, after at most one `+`, that spell no more than
/// `u32::MAX`.
pub open spec fn parsed(text: Seq<char>) -> Option<u32> {
    let digits = if text.len() > 0 && text[0] == '+' {
        text.skip(1)
    } else {
        text
    };
    if digits.len() > 0 && all_digits(digits) && number_of(digits) <= u32::MAX {
        Some(number_of(digits) as u32)
    } else {
        None
    }
}

/// Digits that follow only make the number larger.
proof fn number_grows(text: Seq<char>, upto: int)
    requires
        0 <= upto <= text.len(),
        all_digits(text),
    ensures
        0 <= number_of(text.take(upto)) <= number_of(text),
    decreases text.len() - upto,
{
    if upto == text.len() {
        assert(text.take(upto) =~= text);
        number_is_no_less_than_zero(text);
    } else {
        number_grows(text, upto + 1);
        let longer = text.take(upto + 1);
        assert(longer.drop_last() =~= text.take(upto));
        assert(is_digit(text[upto]));
        assert(longer.last() == text[upto]);
        number_is_no_less_than_zero(text.take(upto));
    }
}

proof fn number_is_no_less_than_zero(text: Seq<char>)
    requires
        all_digits(text),
    ensures
        0 <= number_of(text),
    decreases text.len(),
{
    if text.len() > 0 {
        assert(is_digit(text.last()));
        assert(forall|i: int| 0 <= i < text.drop_last().len() ==> text.drop_last()[i] == text[i]);
        number_is_no_less_than_zero(text.drop_last());
    }
}

/// Reads `text` as a `u32`.
pub fn parse_u32(text: &str) -> (number: Option<u32>)
    ensures
        number == parsed(text@),
{
    let mut rest = text.chars();
    let ghost mut done: int = 0;
    let ghost mut from: int = 0;
    let mut value: u64 = 0;
    let mut seen: bool = false;
    let mut first: bool = true;
    loop
        invariant
            rest.obeys_prophetic_iter_laws(),
            0 <= from <= done <= text@.len(),
            rest.remaining() == text@.skip(done),
            first <==> done == 0,
            from == 0 || from == 1,
            from == 1 <==> (done > 0 && text@[0] == '+'),
            seen <==> done > from,
            all_digits(text@.subrange(from, done)),
            value == number_of(text@.subrange(from, done)),
            value <= u32::MAX,
        decreases text@.len() - done,
    {
        let ghost digits = if text@.len() > 0 && text@[0] == '+' {
            text@.skip(1)
        } else {
            text@
        };
        match rest.next() {
            None => {
                proof {
                    assert(done == text@.len());
                    if text@.len() > 0 && text@[0] == '+' {
                        assert(from == 1);
                    } else {
                        assert(from == 0);
                    }
                    assert(digits =~= text@.subrange(from, done));
                }
                if seen {
                    return Some(value as u32);
                } else {
                    return None;
                }
            },
            Some(c) => {
                proof {
                    assert(c == text@[done]);
                    assert(text@.skip(done).drop_first() == text@.skip(done + 1));
                }
                if first && c == '+' {
                    proof {
                        done = done + 1;
                        from = 1;
                        assert(text@.subrange(1, 1) =~= Seq::<char>::empty());
                    }
                    first = false;
                } else if '0' <= c && c <= '9' {
                    let digit: u64 = (c as u32 - '0' as u32) as u64;
                    let next: u64 = value * 10 + digit;
                    proof {
                        let before = text@.subrange(from, done);
                        let after = text@.subrange(from, done + 1);
                        assert(after.drop_last() =~= before);
                        assert(after.last() == c);
                        assert(next == number_of(after));
                        assert(all_digits(after)) by {
                            assert forall|i: int| 0 <= i < after.len() implies is_digit(
                                #[trigger] after[i],
                            ) by {
                                if i < before.len() {
                                    assert(after[i] == before[i]);
                                }
                            }
                        }
                    }
                    if next > 0xffff_ffff {
                        proof {
                            let after = text@.subrange(from, done + 1);
                            if all_digits(digits) {
                                number_grows(digits, done + 1 - from);
                                assert(digits.take(done + 1 - from) =~= after);
                            }
                        }
                        return None;
                    }
                    value = next;
                    seen = true;
                    first = false;
                    proof {
                        done = done + 1;
                    }
                } else {
                    proof {
                        assert(!is_digit(c));
                        assert(digits[done - from] == c);
                    }
                    return None;
                }
            },
        }
    }
}

/// The character of a decimal digit.
pub open spec fn digit_char(digit: int) -> char {
    (('0' as u8) + digit) as u8 as char
}

/// `number` in decimal digits, without leading zeros.
pub open spec fn decimal(number: nat) -> Seq<char>
    decreases number,
{
    if number < 10 {
        seq![digit_char(number as int)]
    } else {
        decimal(number / 10).push(digit_char((number % 10) as int))
    }
}

fn digit_text(digit: u32) -> (text: &'static str)
    requires
        digit < 10,
    ensures
        text@ == seq![digit_char(digit as int)],
{
    proof {
        reveal_strlit("0");
        reveal_strlit("1");
        reveal_strlit("2");
        reveal_strlit("3");
        reveal_strlit("4");
        reveal_strlit("5");
        reveal_strlit("6");
        reveal_strlit("7");
        reveal_strlit("8");
        reveal_strlit("9");
    }
    let text = match digit {
        0 => "0",
        1 => "1",
        2 => "2",
        3 => "3",
        4 => "4",
        5 => "5",
        6 => "6",
        7 => "7",
        8 => "8",
        _ => "9",
    };
    assert(text@ =~= seq![digit_char(digit as int)]);
    text
}

/// `number` in decimal digits.
pub fn to_decimal(number: u32) -> (text: String)
    ensures
        text@ == decimal(number as nat),
    decreases number,
{
    if number < 10 {
        digit_text(number).to_owned()
    } else {
        let mut text = to_decimal(number / 10);
        text.append(digit_text(number % 10));
        assert(text@ =~= decimal(number as nat));
        text
    }
}

/// A condition that an hour of the forecast gives a chance for: the key
/// under which the report holds the chance, and the name that is shown.
#[derive(Clone, Copy, Debug)]
pub struct Chance {
    pub key: &'static str,
    pub name: &'static str,
}

/// The conditions, in the order in which the report is asked for them.
pub open spec fn chance_table_spec() -> Seq<Chance> {
    seq![
        Chance { key: "chanceoffog", name: "Fog" },
        Chance { key: "chanceoffrost", name: "Frost" },
        Chance { key: "chanceofovercast", name: "Overcast" },
        Chance { key: "chanceofrain", name: "Rain" },
        Chance { key: "chanceofsnow", name: "Snow" },
        Chance { key: "chanceofsunshine", name: "Sunshine" },
        Chance { key: "chanceofthunder", name: "Thunder" },
        Chance { key: "chanceofwindy", name: "Windy" },
    ]
}

/// The conditions, in the order in which the report is asked for them.
pub fn chance_table() -> (table: Vec<Chance>)
    ensures
        table@ == chance_table_spec(),
{
    let table = vec![
        Chance { key: "chanceoffog", name: "Fog" },
        Chance { key: "chanceoffrost", name: "Frost" },
        Chance { key: "chanceofovercast", name: "Overcast" },
        Chance { key: "chanceofrain", name: "Rain" },
        Chance { key: "chanceofsnow", name: "Snow" },
        Chance { key: "chanceofsunshine", name: "Sunshine" },
        Chance { key: "chanceofthunder", name: "Thunder" },
        Chance { key: "chanceofwindy", name: "Windy" },
    ];
    assert(table@ =~= chance_table_spec());
    table
}

/// A condition with the chance, in percent, that the forecast gives it.
#[derive(Clone, Copy, Debug)]
pub struct Condition {
    pub name: &'static str,
    pub chance: u32,
}

/// What the report holds under each key, as plain values.
pub open spec fn texts(raw: Seq<Option<String>>) -> Seq<Option<Seq<char>>> {
    raw.map_values(
        |held: Option<String>|
            match held {
                Some(text) => Some(text@),
                None => None,
            },
    )
}

/// The chance that the report gives for condition number `at`, where it
/// holds one that reads as a number.
pub open spec fn reading(raw: Seq<Option<Seq<char>>>, at: int) -> Option<u32> {
    if 0 <= at < raw.len() {
        match raw[at] {
            Some(text) => parsed(text),
            None => None,
        }
    } else {
        None
    }
}

/// The first `upto` conditions of the table that the report gives a chance
/// above zero, in the order of the table.
pub open spec fn conditions(raw: Seq<Option<Seq<char>>>, upto: int) -> Seq<Condition>
    decreases upto,
{
    if upto <= 0 {
        Seq::empty()
    } else {
        let before = conditions(raw, upto - 1);
        match reading(raw, upto - 1) {
            Some(chance) => if chance > 0 && upto <= chance_table_spec().len() {
                before.push(Condition { name: chance_table_spec()[upto - 1].name, chance })
            } else {
                before
            },
            None => before,
        }
    }
}

/// `ranked` with `added` put behind every condition whose chance is no less
/// than its own.
pub open spec fn place(ranked: Seq<Condition>, added: Condition) -> Seq<Condition>
    decreases ranked.len(),
{
    if ranked.len() == 0 {
        seq![added]
    } else if ranked.last().chance >= added.chance {
        ranked.push(added)
    } else {
        place(ranked.drop_last(), added).push(ranked.last())
    }
}

/// `list` with the greater chances first; conditions of the same chance
/// keep the order that they have in `list`.
pub open spec fn ranking(list: Seq<Condition>) -> Seq<Condition>
    decreases list.len(),
{
    if list.len() == 0 {
        Seq::empty()
    } else {
        place(ranking(list.drop_last()), list.last())
    }
}

/// Whether no condition of `list` has a greater chance than one before it.
pub open spec fn falling(list: Seq<Condition>) -> bool {
    forall|i: int, j: int| 0 <= i < j < list.len() ==> list[i].chance >= list[j].chance
}

proof fn place_is_insert(ranked: Seq<Condition>, added: Condition, at: int)
    requires
        0 <= at <= ranked.len(),
        at > 0 ==> ranked[at - 1].chance >= added.chance,
        forall|k: int| at <= k < ranked.len() ==> ranked[k].chance < added.chance,
    ensures
        place(ranked, added) == ranked.insert(at, added),
    decreases ranked.len(),
{
    if ranked.len() == 0 {
        assert(ranked.insert(at, added) =~= seq![added]);
    } else if at == ranked.len() {
        assert(ranked.insert(at, added) =~= ranked.push(added));
    } else {
        place_is_insert(ranked.drop_last(), added, at);
        assert(ranked.drop_last().insert(at, added).push(ranked.last()) =~= ranked.insert(
            at,
            added,
        ));
    }
}

proof fn place_keeps_order(ranked: Seq<Condition>, added: Condition)
    requires
        falling(ranked),
    ensures
        falling(place(ranked, added)),
        place(ranked, added).to_multiset() == ranked.to_multiset().insert(added),
        place(ranked, added).len() == ranked.len() + 1,
    decreases ranked.len(),
{
    broadcast use vstd::seq_lib::group_to_multiset_ensures;

    if ranked.len() == 0 {
        assert(ranked =~= Seq::empty());
        assert(seq![added] =~= Seq::<Condition>::empty().push(added));
    } else if ranked.last().chance >= added.chance {
    } else {
        let front = ranked.drop_last();
        place_keeps_order(front, added);
        let placed = place(front, added);
        assert(ranked =~= front.push(ranked.last()));
        assert forall|i: int| 0 <= i < placed.len() implies placed[i].chance
            >= ranked.last().chance by {
            assert(placed.to_multiset().count(placed[i]) > 0);
            if placed[i] != added {
                assert(front.to_multiset().count(placed[i]) > 0);
                assert(front.contains(placed[i]));
                let k = choose|k: int| 0 <= k < front.len() && front[k] == placed[i];
                assert(ranked[k] == front[k]);
            }
        }
    }
}

/// A ranking holds the conditions of the list, each as often as the list
/// does, the greater chances first.
pub proof fn ranking_is_falling(list: Seq<Condition>)
    ensures
        falling(ranking(list)),
        ranking(list).to_multiset() == list.to_multiset(),
        ranking(list).len() == list.len(),
    decreases list.len(),
{
    broadcast use vstd::seq_lib::group_to_multiset_ensures;

    if list.len() == 0 {
        assert(list =~= Seq::empty());
    } else {
        ranking_is_falling(list.drop_last());
        place_keeps_order(ranking(list.drop_last()), list.last());
        assert(list =~= list.drop_last().push(list.last()));
    }
}

/// The conditions of `list` whose chance is `chance`, in their order.
pub open spec fn with_chance(list: Seq<Condition>, chance: u32) -> Seq<Condition>
    decreases list.len(),
{
    if list.len() == 0 {
        Seq::empty()
    } else if list.last().chance == chance {
        with_chance(list.drop_last(), chance).push(list.last())
    } else {
        with_chance(list.drop_last(), chance)
    }
}

proof fn place_keeps_equals_in_order(ranked: Seq<Condition>, added: Condition, chance: u32)
    ensures
        with_chance(place(ranked, added), chance) == with_chance(ranked.push(added), chance),
    decreases ranked.len(),
{
    if ranked.len() == 0 {
        assert(place(ranked, added) =~= ranked.push(added));
    } else if ranked.last().chance >= added.chance {
    } else {
        let front = ranked.drop_last();
        let last = ranked.last();
        place_keeps_equals_in_order(front, added, chance);
        let placed = place(front, added).push(last);
        assert(place(ranked, added) == placed);
        assert(placed.drop_last() =~= place(front, added));
        assert(placed.last() == last);
        assert(with_chance(placed, chance) == if last.chance == chance {
            with_chance(place(front, added), chance).push(last)
        } else {
            with_chance(place(front, added), chance)
        });
        assert(front.push(added).drop_last() =~= front);
        assert(front.push(added).last() == added);
        assert(with_chance(front.push(added), chance) == if added.chance == chance {
            with_chance(front, chance).push(added)
        } else {
            with_chance(front, chance)
        });
        assert(ranked.push(added).drop_last() =~= ranked);
        assert(ranked.push(added).last() == added);
        assert(with_chance(ranked.push(added), chance) == if added.chance == chance {
            with_chance(ranked, chance).push(added)
        } else {
            with_chance(ranked, chance)
        });
        assert(with_chance(ranked, chance) == if last.chance == chance {
            with_chance(front, chance).push(last)
        } else {
            with_chance(front, chance)
        });
    }
}

/// In a ranking, the conditions of one chance stand in the order that they
/// have in the list.
pub proof fn ranking_keeps_equals_in_order(list: Seq<Condition>, chance: u32)
    ensures
        with_chance(ranking(list), chance) == with_chance(list, chance),
    decreases list.len(),
{
    if list.len() > 0 {
        let front = list.drop_last();
        ranking_keeps_equals_in_order(front, chance);
        place_keeps_equals_in_order(ranking(front), list.last(), chance);
        assert(ranking(front).push(list.last()).drop_last() =~= ranking(front));
    }
}

/// A condition as it is shown: its name and its chance in percent.
pub open spec fn shown(condition: Condition) -> Seq<char> {
    condition.name@ + " "@ + decimal(condition.chance as nat) + "%"@
}

/// The conditions of `list` as they are shown, with `, ` between them.
pub open spec fn joined(list: Seq<Condition>) -> Seq<char>
    decreases list.len(),
{
    if list.len() == 0 {
        Seq::empty()
    } else if list.len() == 1 {
        shown(list[0])
    } else {
        joined(list.drop_last()) + ", "@ + shown(list.last())
    }
}

/// Puts `added` into `ranked`, behind every condition whose chance is no
/// less than its own.
fn place_into(ranked: &mut Vec<Condition>, added: Condition)
    ensures
        final(ranked)@ == place(old(ranked)@, added),
{
    let mut at: usize = ranked.len();
    while at > 0 && ranked[at - 1].chance < added.chance
        invariant
            at <= ranked.len(),
            ranked@ == old(ranked)@,
            forall|k: int| at <= k < ranked.len() ==> ranked[k].chance < added.chance,
        decreases at,
    {
        at -= 1;
    }
    proof {
        place_is_insert(ranked@, added, at as int);
    }
    ranked.insert(at, added);
}

/// The chances of an hour of the forecast in one line: every condition
/// that the report gives a chance above zero, the greater chances first,
/// as `Rain 80%, Fog 10%`. `raw` holds, for each condition of the table in
/// turn, the text that the report holds under its key, if it holds one.
pub fn format_chances(raw: &Vec<Option<String>>) -> (line: String)
    ensures
        line@ == joined(ranking(conditions(texts(raw@), chance_table_spec().len() as int))),
{
    let table = chance_table();
    let mut ranked: Vec<Condition> = Vec::new();
    let mut i: usize = 0;
    while i < table.len()
        invariant
            i <= table.len(),
            table@ == chance_table_spec(),
            ranked@ == ranking(conditions(texts(raw@), i as int)),
        decreases table.len() - i,
    {
        let ghost before = conditions(texts(raw@), i as int);
        let ghost after = conditions(texts(raw@), i + 1);
        if i < raw.len() {
            match &raw[i] {
                Some(text) => {
                    match parse_u32(text.as_str()) {
                        Some(chance) => {
                            if chance > 0 {
                                let added = Condition { name: table[i].name, chance };
                                proof {
                                    assert(after == before.push(added));
                                    assert(after.drop_last() =~= before);
                                }
                                place_into(&mut ranked, added);
                            }
                        },
                        None => {},
                    }
                },
                None => {},
            }
        }
        i += 1;
    }
    let mut line = String::new();
    let mut k: usize = 0;
    while k < ranked.len()
        invariant
            k <= ranked.len(),
            line@ == joined(ranked@.take(k as int)),
        decreases ranked.len() - k,
    {
        proof {
            assert(ranked@.take(k + 1).drop_last() =~= ranked@.take(k as int));
        }
        if k > 0 {
            line.append(", ");
        }
        line.append(ranked[k].name);
        line.append(" ");
        line.append(to_decimal(ranked[k].chance).as_str());
        line.append("%");
        proof {
            let shorter = ranked@.take(k as int);
            let longer = ranked@.take(k + 1);
            assert(longer.last() == ranked@[k as int]);
            if k == 0 {
                assert(joined(shorter) =~= Seq::<char>::empty());
                assert(longer[0] == ranked@[0]);
                assert(line@ =~= shown(ranked@[0]));
            } else {
                assert(line@ =~= joined(shorter) + ", "@ + shown(ranked@[k as int]));
            }
        }
        k += 1;
    }
    assert(ranked@.take(ranked.len() as int) =~= ranked@);
    line
}

/// What chrono makes of `text` as a time of day on the twelve-hour clock,
/// such as `06:05 AM`: the hour and the minute, or the words of its error.
pub uninterp spec fn clock_time_of(text: Seq<char>) -> Result<(u32, u32), Seq<char>>;

/// Reads a time of day on the twelve-hour clock: chrono's
/// `NaiveTime::parse_from_str` with the format `%I:%M %p`, then `hour` and
/// `minute` of the time, or the error as `to_string` words it.
///
/// The result is taken on trust to be what [`clock_time_of`] names, with an
/// hour below 24 and a minute below 60, as chrono documents both.
#[verifier::external_body]
fn parse_clock_time(text: &str) -> (time: Result<(u32, u32), String>)
    ensures
        match time {
            Ok(clock) => clock_time_of(text@) == Ok::<(u32, u32), Seq<char>>(clock) && clock.0
                < 24 && clock.1 < 60,
            Err(words) => clock_time_of(text@) == Err::<(u32, u32), Seq<char>>(words@),
        },
{
    match chrono::NaiveTime::parse_from_str(text, "%I:%M %p") {
        Ok(time) => Ok((chrono::Timelike::hour(&time), chrono::Timelike::minute(&time))),
        Err(err) => Err(err.to_string()),
    }
}

/// `number` in at least two decimal digits.
pub open spec fn two_digits(number: u32) -> Seq<char> {
    if number < 10 {
        seq!['0'] + decimal(number as nat)
    } else {
        decimal(number as nat)
    }
}

/// A time of day as it is shown, on the twenty-four-hour clock, or the
/// words of the error where there is none.
pub open spec fn day_time(time: Result<(u32, u32), Seq<char>>) -> Result<Seq<char>, Seq<char>> {
    match time {
        Ok(clock) => Ok(two_digits(clock.0) + ":"@ + two_digits(clock.1)),
        Err(words) => Err("Failed to parse time from string: "@ + words),
    }
}

/// What is shown for the time that the report holds, if it holds one.
pub open spec fn day_time_of(held: Option<Seq<char>>) -> Result<Seq<char>, Seq<char>> {
    match held {
        Some(text) => day_time(clock_time_of(text)),
        None => Err("Time of the day was not present!"@),
    }
}

/// The text of a result, on either side.
pub open spec fn text_of(shown: Result<String, String>) -> Result<Seq<char>, Seq<char>> {
    match shown {
        Ok(text) => Ok(text@),
        Err(words) => Err(words@),
    }
}

fn to_two_digits(number: u32) -> (text: String)
    ensures
        text@ == two_digits(number),
{
    if number < 10 {
        proof {
            reveal_strlit("0");
        }
        let mut text = "0".to_owned();
        text.append(to_decimal(number).as_str());
        assert(text@ =~= two_digits(number));
        text
    } else {
        to_decimal(number)
    }
}

/// A time of day, read as hour and minute, as it is shown: `18:05`. An
/// error is handed on behind the words `Failed to parse time from string: `.
pub fn show_day_time(time: Result<(u32, u32), String>) -> (shown: Result<String, String>)
    ensures
        text_of(shown) == day_time(
            match time {
                Ok(clock) => Ok(clock),
                Err(words) => Err(words@),
            },
        ),
{
    match time {
        Ok(clock) => {
            let mut text = to_two_digits(clock.0);
            text.append(":");
            text.append(to_two_digits(clock.1).as_str());
            Ok(text)
        },
        Err(words) => {
            let mut text = "Failed to parse time from string: ".to_owned();
            text.append(words.as_str());
            Err(text)
        },
    }
}

/// The time of sunrise or sunset as it is shown, from the text that the
/// report holds for it on the twelve-hour clock; an error where the report
/// holds none, or one that is no time.
pub fn format_day_time(held: Option<&str>) -> (shown: Result<String, String>)
    ensures
        text_of(shown) == day_time_of(
            match held {
                Some(text) => Some(text@),
                None => None,
            },
        ),
{
    match held {
        Some(text) => show_day_time(parse_clock_time(text)),
        None => Err("Time of the day was not present!".to_owned()),
    }
}

} // verus!
