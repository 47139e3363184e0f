//! Whole lines of output: status blocks in each mode, battle events and
//! shop listings. Each function returns the lines to print, in order.

use crate::format::{
    attack_view, braced, character_view, equipment_items, format_attack,
    format_character, format_equipment, format_gold, format_gold_plus, format_inventory,
    gold_plus_view, gold_view, hp_display, hp_view, inventory_text, xp_display, xp_view,
};
use crate::model::{Attack, Character, Game, OutputMode, ShopItem};
use crate::style::{
    colored_view, extend_line, plain_line, plain_view, push_span, views, Color, Span, SpanView,
};
use crate::text::{
    decimal, int_text, pad_left, pad_left_spec, pad_right, pad_right_spec, repeat_char, repeated,
};
use vstd::prelude::*;

verus! {

/// The views of a list of lines.
pub open spec fn lines_view(lines: Seq<Vec<Span>>) -> Seq<Seq<SpanView>> {
    lines.map_values(|l: Vec<Span>| views(l@))
}

/// A bold span without color.
pub open spec fn bold_view(text: Seq<char>) -> SpanView {
    SpanView { text, color: None, bold: true }
}

/// The general line: name tag, hit point and experience gauges four slots
/// wide, `@location `, then the suffix.
pub open spec fn log_view(
    c: Character,
    location: Seq<char>,
    suffix: Seq<SpanView>,
) -> Seq<SpanView> {
    character_view(c) + hp_view(c, 4) + xp_view(c, 4) + seq![plain_view("@"@ + location + " "@)]
        + suffix
}

/// The battle line: name tag, hit point gauge four slots wide, a space, then
/// the suffix.
pub open spec fn battle_log_view(c: Character, suffix: Seq<SpanView>) -> Seq<SpanView> {
    character_view(c) + hp_view(c, 4) + seq![plain_view(" "@)] + suffix
}

/// `a/b` in decimal.
pub open spec fn fraction(a: int, b: int) -> Seq<char> {
    decimal(a) + "/"@ + decimal(b)
}

/// The verbose status block.
pub open spec fn long_status_view(game: Game) -> Seq<Seq<SpanView>> {
    let p = game.player;
    seq![
        character_view(p) + seq![plain_view("@"@ + game.location@)],
        seq![plain_view("    hp:"@)] + hp_view(p, 10) + seq![
            plain_view(" "@ + fraction(p.current_hp as int, p.max_hp as int)),
        ],
        seq![plain_view("    xp:"@)] + xp_view(p, 10) + seq![
            plain_view(" "@ + fraction(p.xp as int, p.xp_for_next as int)),
        ],
        seq![
            plain_view(
                "    att:"@ + decimal(p.attack as int) + "   def:"@ + decimal(p.defense as int)
                    + "   spd:"@ + decimal(p.speed as int),
            ),
        ],
        seq![plain_view("    "@ + braced("equip:"@, equipment_items(p)))],
        seq![plain_view("    "@ + inventory_text(game.inventory@))],
        seq![plain_view("    "@), gold_view(game.gold as int)],
    ]
}

/// The plain status line, tab separated.
pub open spec fn plain_status_text(game: Game) -> Seq<char> {
    let p = game.player;
    p.name@ + "["@ + decimal(p.level as int) + "]\t@"@ + game.location@ + "\thp:"@ + fraction(
        p.current_hp as int,
        p.max_hp as int,
    ) + "\txp:"@ + fraction(p.xp as int, p.xp_for_next as int) + "\tatt:"@ + decimal(
        p.attack as int,
    ) + "\tdef:"@ + decimal(p.defense as int) + "\tspd:"@ + decimal(p.speed as int) + "\t"@
        + braced("equip:"@, equipment_items(p)) + "\t"@ + inventory_text(
        game.inventory@,
    ) + "\tg:"@ + decimal(
        game.gold as int,
    )
}

/// The quiet status line.
pub open spec fn short_status_view(game: Game) -> Seq<SpanView> {
    log_view(game.player, game.location@, Seq::empty())
}

/// The levels gained after a won battle: ` ++level` in cyan, one `+` per
/// level; nothing when no level was gained.
pub open spec fn levels_view(levels_up: int) -> Seq<SpanView> {
    if levels_up > 0 {
        seq![colored_view(" "@ + repeated('+', levels_up) + "level"@, Color::Cyan)]
    } else {
        Seq::empty()
    }
}

/// The spans of `a` followed by those of `b`.
fn cat(a: Vec<Span>, b: Vec<Span>) -> (r: Vec<Span>)
    ensures
        views(r@) == views(a@) + views(b@),
{
    let mut r = a;
    extend_line(&mut r, b);
    r
}

/// A list of lines with one more.
fn push_line(lines: &mut Vec<Vec<Span>>, line: Vec<Span>)
    ensures
        lines_view(final(lines)@) == lines_view(old(lines)@).push(views(line@)),
{
    lines.push(line);
    assert(lines_view(lines@) =~= lines_view(old(lines)@).push(views(line@)));
}

/// A list of one line.
fn one_line(line: Vec<Span>) -> (r: Vec<Vec<Span>>)
    ensures
        lines_view(r@) == seq![views(line@)],
{
    let mut r: Vec<Vec<Span>> = Vec::new();
    push_line(&mut r, line);
    assert(lines_view(r@) =~= seq![views(line@)]);
    r
}

/// A line of one span.
fn one_span(s: Span) -> (r: Vec<Span>)
    ensures
        views(r@) == seq![s@],
{
    let mut r: Vec<Span> = Vec::new();
    push_span(&mut r, s);
    assert(views(r@) =~= seq![s@]);
    r
}

/// No lines at all.
fn no_lines() -> (r: Vec<Vec<Span>>)
    ensures
        lines_view(r@) == Seq::<Seq<SpanView>>::empty(),
        r@.len() == 0,
{
    let r: Vec<Vec<Span>> = Vec::new();
    assert(lines_view(r@) =~= Seq::<Seq<SpanView>>::empty());
    r
}

/// The general line for `c` at `location`, ending in `suffix`.
pub fn log(c: &Character, location: &str, suffix: Vec<Span>) -> (r: Vec<Span>)
    ensures
        views(r@) == log_view(*c, location@, views(suffix@)),
{
    let mut at = String::from_str("@");
    at.append(location);
    at.append(" ");
    let r = cat(format_character(c), hp_display(c, 4));
    let r = cat(r, xp_display(c, 4));
    let r = cat(r, plain_line(at));
    cat(r, suffix)
}

/// The battle line for `c`, ending in `suffix`.
pub fn battle_log(c: &Character, suffix: Vec<Span>) -> (r: Vec<Span>)
    ensures
        views(r@) == battle_log_view(*c, views(suffix@)),
{
    let r = cat(format_character(c), hp_display(c, 4));
    let r = cat(r, plain_line(String::from_str(" ")));
    cat(r, suffix)
}

/// `a/b`.
fn fraction_text(a: i32, b: i32) -> (r: String)
    ensures
        r@ == fraction(a as int, b as int),
{
    let mut t = int_text(a);
    t.append("/");
    t.append(int_text(b).as_str());
    t
}

/// The verbose status block: name tag and location, hit points and
/// experience as gauges ten slots wide with their figures, attack, defense
/// and speed, equipment, inventory and gold.
pub fn long_status(game: &Game) -> (r: Vec<Vec<Span>>)
    ensures
        lines_view(r@) == long_status_view(*game),
{
    let p = &game.player;
    let mut lines: Vec<Vec<Span>> = Vec::new();

    let mut at = String::from_str("@");
    at.append(game.location.as_str());
    push_line(&mut lines, cat(format_character(p), plain_line(at)));

    let mut hp = String::from_str(" ");
    hp.append(fraction_text(p.current_hp, p.max_hp).as_str());
    let line = cat(plain_line(String::from_str("    hp:")), hp_display(p, 10));
    push_line(&mut lines, cat(line, plain_line(hp)));

    let mut xp = String::from_str(" ");
    xp.append(fraction_text(p.xp, p.xp_for_next).as_str());
    let line = cat(plain_line(String::from_str("    xp:")), xp_display(p, 10));
    push_line(&mut lines, cat(line, plain_line(xp)));

    let mut stats = String::from_str("    att:");
    stats.append(int_text(p.attack).as_str());
    stats.append("   def:");
    stats.append(int_text(p.defense).as_str());
    stats.append("   spd:");
    stats.append(int_text(p.speed).as_str());
    push_line(&mut lines, plain_line(stats));

    let mut equipment = String::from_str("    ");
    equipment.append(format_equipment(p).as_str());
    push_line(&mut lines, plain_line(equipment));

    let inventory = format_inventory(game);
    let mut inv_line = String::from_str("    ");
    inv_line.append(inventory.as_str());
    push_line(&mut lines, plain_line(inv_line));

    let mut gold_line = plain_line(String::from_str("    "));
    push_span(&mut gold_line, format_gold(game.gold));
    push_line(&mut lines, gold_line);

    let ghost want = long_status_view(*game);
    assert(lines_view(lines@)[0] =~= want[0]);
    assert(lines_view(lines@)[1] =~= want[1]);
    assert(lines_view(lines@)[2] =~= want[2]);
    assert(lines_view(lines@)[3] =~= want[3]);
    assert(lines_view(lines@)[4] =~= want[4]);
    assert(lines_view(lines@)[5] =~= want[5]);
    assert(lines_view(lines@)[6] =~= want[6]);
    assert(lines_view(lines@) =~= want);
    lines
}

/// The quiet status line.
pub fn short_status(game: &Game) -> (r: Vec<Span>)
    ensures
        views(r@) == short_status_view(*game),
{
    let none: Vec<Span> = Vec::new();
    assert(views(none@) =~= Seq::<SpanView>::empty());
    log(&game.player, game.location.as_str(), none)
}

/// The plain status line: unstyled, tab separated, each field labelled.
pub fn plain_status(game: &Game) -> (r: Vec<Span>)
    ensures
        views(r@) == seq![plain_view(plain_status_text(*game))],
{
    let p = &game.player;
    let mut s = p.name.clone();
    s.append("[");
    s.append(int_text(p.level).as_str());
    s.append("]\t@");
    s.append(game.location.as_str());
    s.append("\thp:");
    s.append(fraction_text(p.current_hp, p.max_hp).as_str());
    s.append("\txp:");
    s.append(fraction_text(p.xp, p.xp_for_next).as_str());
    s.append("\tatt:");
    s.append(int_text(p.attack).as_str());
    s.append("\tdef:");
    s.append(int_text(p.defense).as_str());
    s.append("\tspd:");
    s.append(int_text(p.speed).as_str());
    s.append("\t");
    s.append(format_equipment(p).as_str());
    s.append("\t");
    let inventory = format_inventory(game);
    s.append(inventory.as_str());
    s.append("\tg:");
    s.append(int_text(game.gold).as_str());
    assert(s@ =~= plain_status_text(*game));
    plain_line(s)
}

/// The status in the mode chosen: the plain line in plain mode, else the
/// quiet line in quiet mode, else the verbose block.
pub fn status(game: &Game, mode: OutputMode) -> (r: Vec<Vec<Span>>)
    ensures
        mode.plain ==> lines_view(r@) == seq![seq![plain_view(plain_status_text(*game))]],
        !mode.plain && mode.quiet ==> lines_view(r@) == seq![short_status_view(*game)],
        !mode.plain && !mode.quiet ==> lines_view(r@) == long_status_view(*game),
{
    if mode.plain {
        one_line(plain_status(game))
    } else if mode.quiet {
        one_line(short_status(game))
    } else {
        long_status(game)
    }
}

/// An enemy appears: its general line with no suffix.
pub fn enemy_appears(enemy: &Character, location: &str) -> (r: Vec<Vec<Span>>)
    ensures
        lines_view(r@) == seq![log_view(*enemy, location@, Seq::empty())],
{
    let none: Vec<Span> = Vec::new();
    assert(views(none@) =~= Seq::<SpanView>::empty());
    one_line(log(enemy, location, none))
}

/// A bribe was paid: `bribed -{amount}g` on the battle line, then a blank
/// line.
pub fn bribe_success(player: &Character, amount: i32) -> (r: Vec<Vec<Span>>)
    ensures
        lines_view(r@) == seq![
            battle_log_view(
                *player,
                seq![
                    plain_view("bribed "@),
                    colored_view("-"@ + decimal(amount as int) + "g"@, Color::Yellow),
                ],
            ),
            Seq::<SpanView>::empty(),
        ],
{
    let mut cost = String::from_str("-");
    cost.append(int_text(amount).as_str());
    cost.append("g");
    let mut suffix = plain_line(String::from_str("bribed "));
    push_span(&mut suffix, Span::colored(cost, Color::Yellow));
    assert(views(suffix@) =~= seq![
        plain_view("bribed "@),
        colored_view("-"@ + decimal(amount as int) + "g"@, Color::Yellow),
    ]);
    let mut lines = one_line(battle_log(player, suffix));
    let blank: Vec<Span> = Vec::new();
    assert(views(blank@) =~= Seq::<SpanView>::empty());
    push_line(&mut lines, blank);
    lines
}

/// The battle line for `c` with an unstyled message.
fn battle_message(c: &Character, message: &str) -> (r: Vec<Vec<Span>>)
    ensures
        lines_view(r@) == seq![battle_log_view(*c, seq![plain_view(message@)])],
{
    one_line(battle_log(c, plain_line(String::from_str(message))))
}

/// A bribe was refused: `can't bribe!` on the battle line.
pub fn bribe_failure(player: &Character) -> (r: Vec<Vec<Span>>)
    ensures
        lines_view(r@) == seq![battle_log_view(*player, seq![plain_view("can't bribe!"@)])],
{
    battle_message(player, "can't bribe!")
}

/// The player ran away: `fled!` on the battle line.
pub fn run_away_success(player: &Character) -> (r: Vec<Vec<Span>>)
    ensures
        lines_view(r@) == seq![battle_log_view(*player, seq![plain_view("fled!"@)])],
{
    battle_message(player, "fled!")
}

/// The player could not run away: `can't run!` on the battle line.
pub fn run_away_failure(player: &Character) -> (r: Vec<Vec<Span>>)
    ensures
        lines_view(r@) == seq![battle_log_view(*player, seq![plain_view("can't run!"@)])],
{
    battle_message(player, "can't run!")
}

/// The items left on a tombstone, each as ` +item`.
pub open spec fn tomb_items_view(items: Seq<String>) -> Seq<SpanView> {
    items.map_values(|i: String| plain_view(" +"@ + i@))
}

/// A tombstone: `hero` right-aligned in eight columns, a grave, `@location`,
/// then the gold left when there is any, and each item.
pub fn tombstone(location: &str, items: &Vec<String>, gold: i32) -> (r: Vec<Vec<Span>>)
    ensures
        lines_view(r@) == seq![
            seq![plain_view(pad_left_spec("hero"@, 8) + "[\u{1FAA6} ]@"@ + location@)] + (if gold
                > 0 {
                seq![plain_view(" "@), gold_plus_view(gold as int)]
            } else {
                Seq::empty()
            }) + tomb_items_view(items@),
        ],
{
    let mut head = pad_left("hero", 8);
    head.append("[\u{1FAA6} ]@");
    head.append(location);
    let mut line = plain_line(head);
    let ghost start = views(line@);
    if gold > 0 {
        push_span(&mut line, Span::plain(String::from_str(" ")));
        push_span(&mut line, format_gold_plus(gold));
    }
    let ghost before = views(line@);
    assert(before =~= seq![plain_view(pad_left_spec("hero"@, 8) + "[\u{1FAA6} ]@"@ + location@)] + (
    if gold > 0 {
        seq![plain_view(" "@), gold_plus_view(gold as int)]
    } else {
        Seq::empty()
    }));
    let mut i: usize = 0;
    while i < items.len()
        invariant
            i <= items@.len(),
            views(line@) == before + tomb_items_view(items@.take(i as int)),
        decreases items@.len() - i,
    {
        let mut t = String::from_str(" +");
        t.append(items[i].as_str());
        push_span(&mut line, Span::plain(t));
        assert(tomb_items_view(items@.take(i + 1)) =~= tomb_items_view(items@.take(i as int)).push(
            plain_view(" +"@ + items@[i as int]@),
        ));
        i = i + 1;
    }
    assert(items@.take(i as int) =~= items@);
    one_line(line)
}

/// Hit points recovered out of battle: `+{recovered}hp` in green on the
/// general line; no line when nothing was recovered.
pub fn heal(player: &Character, location: &str, recovered: i32) -> (r: Vec<Vec<Span>>)
    ensures
        recovered > 0 ==> lines_view(r@) == seq![
            log_view(
                *player,
                location@,
                seq![colored_view("+"@ + decimal(recovered as int) + "hp"@, Color::Green)],
            ),
        ],
        recovered <= 0 ==> r@.len() == 0,
{
    if recovered > 0 {
        let mut t = String::from_str("+");
        t.append(int_text(recovered).as_str());
        t.append("hp");
        one_line(log(player, location, one_span(Span::colored(t, Color::Green))))
    } else {
        no_lines()
    }
}

/// A potion was drunk: `+{recovered}hp potion` in green on the battle line;
/// no line when nothing was recovered.
pub fn potion(player: &Character, recovered: i32) -> (r: Vec<Vec<Span>>)
    ensures
        recovered > 0 ==> lines_view(r@) == seq![
            battle_log_view(
                *player,
                seq![colored_view("+"@ + decimal(recovered as int) + "hp potion"@, Color::Green)],
            ),
        ],
        recovered <= 0 ==> r@.len() == 0,
{
    if recovered > 0 {
        let mut t = String::from_str("+");
        t.append(int_text(recovered).as_str());
        t.append("hp potion");
        one_line(battle_log(player, one_span(Span::colored(t, Color::Green))))
    } else {
        no_lines()
    }
}

/// The battle line for `c` ending in an attack's outcome; no line in quiet
/// mode.
fn attack_lines(
    c: &Character,
    attack: Attack,
    color: Color,
    mode: OutputMode,
) -> (r: Vec<Vec<Span>>)
    ensures
        !mode.quiet ==> lines_view(r@) == seq![battle_log_view(*c, seq![attack_view(attack, color)])],
        mode.quiet ==> r@.len() == 0,
{
    if !mode.quiet {
        one_line(battle_log(c, one_span(format_attack(attack, color))))
    } else {
        no_lines()
    }
}

/// The player's attack on `enemy`, in white on the enemy's battle line; no
/// line in quiet mode.
pub fn player_attack(enemy: &Character, attack: Attack, mode: OutputMode) -> (r: Vec<Vec<Span>>)
    ensures
        !mode.quiet ==> lines_view(r@) == seq![
            battle_log_view(*enemy, seq![attack_view(attack, Color::White)]),
        ],
        mode.quiet ==> r@.len() == 0,
{
    attack_lines(enemy, attack, Color::White, mode)
}

/// An enemy's attack on the player, in bright red on the player's battle
/// line; no line in quiet mode.
pub fn enemy_attack(player: &Character, attack: Attack, mode: OutputMode) -> (r: Vec<Vec<Span>>)
    ensures
        !mode.quiet ==> lines_view(r@) == seq![
            battle_log_view(*player, seq![attack_view(attack, Color::BrightRed)]),
        ],
        mode.quiet ==> r@.len() == 0,
{
    attack_lines(player, attack, Color::BrightRed, mode)
}

/// A lost battle: a skull on the battle line.
pub fn battle_lost(player: &Character) -> (r: Vec<Vec<Span>>)
    ensures
        lines_view(r@) == seq![battle_log_view(*player, seq![plain_view("\u{1F480}"@)])],
{
    battle_message(player, "\u{1F480}")
}

/// A won battle: `+{xp}xp` in bold, the levels gained, the gold won, on the
/// battle line; then the quiet status line.
pub fn battle_won(game: &Game, xp: i32, levels_up: i32, gold: i32) -> (r: Vec<Vec<Span>>)
    ensures
        lines_view(r@) == seq![
            battle_log_view(
                game.player,
                seq![bold_view("+"@ + decimal(xp as int) + "xp"@)] + levels_view(levels_up as int)
                    + seq![plain_view(" "@), gold_plus_view(gold as int)],
            ),
            short_status_view(*game),
        ],
{
    let mut t = String::from_str("+");
    t.append(int_text(xp).as_str());
    t.append("xp");
    let mut suffix = one_span(Span { text: t, color: None, bold: true });
    let ghost head = views(suffix@);
    if levels_up > 0 {
        let mut l = String::from_str(" ");
        l.append(repeat_char('+', levels_up as usize).as_str());
        l.append("level");
        push_span(&mut suffix, Span::colored(l, Color::Cyan));
    }
    assert(views(suffix@) =~= head + levels_view(levels_up as int));
    push_span(&mut suffix, Span::plain(String::from_str(" ")));
    push_span(&mut suffix, format_gold_plus(gold));
    assert(views(suffix@) =~= seq![bold_view("+"@ + decimal(xp as int) + "xp"@)] + levels_view(
        levels_up as int,
    ) + seq![plain_view(" "@), gold_plus_view(gold as int)]);
    let mut lines = one_line(battle_log(&game.player, suffix));
    push_line(&mut lines, short_status(game));
    lines
}

/// A shop's listing line: the name left-aligned in ten columns, the cost.
pub open spec fn shop_item_view(item: ShopItem) -> Seq<SpanView> {
    seq![plain_view("    "@ + pad_right_spec(item.display@, 10) + "  "@), gold_view(item.cost as int)]
}

/// A shop's listing: one line per item, a blank line, then the player's
/// funds.
pub fn shop_list(game: &Game, items: &Vec<ShopItem>) -> (r: Vec<Vec<Span>>)
    ensures
        lines_view(r@) == items@.map_values(|i: ShopItem| shop_item_view(i)) + seq![
            Seq::<SpanView>::empty(),
            seq![plain_view("    funds: "@), gold_view(game.gold as int)],
        ],
{
    let ghost want = items@.map_values(|i: ShopItem| shop_item_view(i));
    let mut lines: Vec<Vec<Span>> = Vec::new();
    let mut i: usize = 0;
    while i < items.len()
        invariant
            i <= items@.len(),
            want == items@.map_values(|i: ShopItem| shop_item_view(i)),
            lines_view(lines@) == want.take(i as int),
        decreases items@.len() - i,
    {
        let mut t = String::from_str("    ");
        t.append(pad_right(items[i].display.as_str(), 10).as_str());
        t.append("  ");
        let mut line = plain_line(t);
        push_span(&mut line, format_gold(items[i].cost));
        assert(views(line@) =~= shop_item_view(items@[i as int]));
        push_line(&mut lines, line);
        assert(want.take(i + 1) =~= want.take(i as int).push(want[i as int]));
        i = i + 1;
    }
    assert(want.take(i as int) =~= want);
    let blank: Vec<Span> = Vec::new();
    assert(views(blank@) =~= Seq::<SpanView>::empty());
    push_line(&mut lines, blank);
    let mut funds = plain_line(String::from_str("    funds: "));
    push_span(&mut funds, format_gold(game.gold));
    assert(views(funds@) =~= seq![plain_view("    funds: "@), gold_view(game.gold as int)]);
    push_line(&mut lines, funds);
    assert(lines_view(lines@) =~= want + seq![
        Seq::<SpanView>::empty(),
        seq![plain_view("    funds: "@), gold_view(game.gold as int)],
    ]);
    lines
}

} // verus!
