use rpg_log::text::{int_text, pad_left, pad_right};
use rpg_log::{
    battle_lost, battle_won, bribe_failure, bribe_success, enemy_appears, enemy_attack,
    format_attack, format_character, format_equipment, format_gold, format_gold_plus,
    format_inventory, heal, hp_display, init, player_attack, potion, render_line,
    run_away_failure, run_away_success, shop_list, status, text_of, tombstone, xp_display,
    Attack, Character, Color, Game, OutputMode, ShopItem, Span,
};

fn hero() -> Character {
    Character {
        name: "hero".to_string(),
        level: 3,
        current_hp: 10,
        max_hp: 20,
        xp: 5,
        xp_for_next: 50,
        attack: 7,
        defense: 2,
        speed: 4,
        is_player: true,
        sword: None,
        shield: None,
    }
}

fn rat() -> Character {
    Character {
        name: "rat".to_string(),
        level: 1,
        current_hp: 3,
        max_hp: 10,
        xp: 0,
        xp_for_next: 0,
        attack: 2,
        defense: 0,
        speed: 5,
        is_player: false,
        sword: None,
        shield: None,
    }
}

fn game() -> Game {
    Game {
        player: hero(),
        location: "~".to_string(),
        gold: 100,
        inventory: Vec::new(),
    }
}

fn texts(lines: &Vec<Vec<Span>>) -> Vec<String> {
    lines.iter().map(|l| text_of(l)).collect()
}

#[test]
fn equipment_empty() {
    assert_eq!(format_equipment(&hero()), "equip:{}");
}

#[test]
fn equipment_sword_only() {
    let mut c = hero();
    c.sword = Some("Blade".to_string());
    assert_eq!(format_equipment(&c), "equip:{Blade}");
}

#[test]
fn equipment_shield_only_and_both() {
    let mut c = hero();
    c.shield = Some("Buckler".to_string());
    assert_eq!(format_equipment(&c), "equip:{Buckler}");
    c.sword = Some("Blade".to_string());
    assert_eq!(format_equipment(&c), "equip:{Blade,Buckler}");
}

#[test]
fn inventory_sorted_by_rendered_entry() {
    let mut g = game();
    g.inventory = vec![("potion".to_string(), 2), ("elixir".to_string(), 1)];
    assert_eq!(format_inventory(&g), "item:{elixirx1,potionx2}");
}

#[test]
fn inventory_order_is_that_of_the_entry_text() {
    let mut g = game();
    g.inventory = vec![("a".to_string(), 9), ("ab".to_string(), 1)];
    assert_eq!(format_inventory(&g), "item:{abx1,ax9}");
}

#[test]
fn inventory_empty() {
    assert_eq!(format_inventory(&game()), "item:{}");
}

#[test]
fn attack_miss_is_unstyled() {
    for color in [Color::White, Color::BrightRed] {
        let s = format_attack(Attack::Miss, color);
        assert_eq!(s.text, " dodged!");
        assert_eq!(s.color, None);
        assert!(!s.bold);
    }
}

#[test]
fn attack_regular_and_critical() {
    let s = format_attack(Attack::Regular(12), Color::White);
    assert_eq!(s.text, "-12hp");
    assert_eq!(s.color, Some(Color::White));
    let s = format_attack(Attack::Critical(30), Color::BrightRed);
    assert_eq!(s.text, "-30hp critical!");
    assert_eq!(s.color, Some(Color::BrightRed));
}

#[test]
fn heal_nothing_gives_no_line() {
    assert!(heal(&hero(), "~", 0).is_empty());
    assert!(heal(&hero(), "~", -4).is_empty());
}

#[test]
fn heal_gives_one_line() {
    let lines = heal(&hero(), "~", 5);
    assert_eq!(lines.len(), 1);
    let t = text_of(&lines[0]);
    assert!(t.contains("+5hp"));
    assert_eq!(t, "    hero[3][xx--][x---]@~ +5hp");
}

#[test]
fn potion_lines() {
    assert!(potion(&hero(), 0).is_empty());
    let lines = potion(&hero(), 7);
    assert_eq!(texts(&lines), vec!["    hero[3][xx--] +7hp potion"]);
}

#[test]
fn plain_status_line() {
    let lines = status(&game(), init(false, true));
    assert_eq!(
        texts(&lines),
        vec!["hero[3]\t@~\thp:10/20\txp:5/50\tatt:7\tdef:2\tspd:4\tequip:{}\titem:{}\tg:100"]
    );
    assert!(lines[0].iter().all(|s| s.color.is_none() && !s.bold));
}

#[test]
fn plain_mode_wins_over_quiet() {
    let a = texts(&status(&game(), init(true, true)));
    let b = texts(&status(&game(), init(false, true)));
    assert_eq!(a, b);
}

#[test]
fn quiet_status_line() {
    let lines = status(&game(), init(true, false));
    assert_eq!(texts(&lines), vec!["    hero[3][xx--][x---]@~ "]);
}

#[test]
fn verbose_status_block() {
    let mut g = game();
    g.inventory = vec![("potion".to_string(), 2)];
    let lines = status(&g, OutputMode::verbose());
    assert_eq!(
        texts(&lines),
        vec![
            "    hero[3]@~",
            "    hp:[xxxxx-----] 10/20",
            "    xp:[x---------] 5/50",
            "    att:7   def:2   spd:4",
            "    equip:{}",
            "    item:{potionx2}",
            "    100g",
        ]
    );
}

#[test]
fn name_tag_styles() {
    let tag = format_character(&hero());
    assert_eq!(tag[0].text, "    hero");
    assert!(tag[0].bold);
    assert_eq!(tag[0].color, None);
    let tag = format_character(&rat());
    assert_eq!(tag[0].color, Some(Color::Yellow));
    assert_eq!(text_of(&tag), "     rat[1]");
}

#[test]
fn enemy_has_no_xp_gauge() {
    assert!(xp_display(&rat(), 4).is_empty());
    assert_eq!(text_of(&hp_display(&rat(), 4)), "[xx--]");
    let lines = enemy_appears(&rat(), "forest");
    assert_eq!(texts(&lines), vec!["     rat[1][xx--]@forest "]);
}

#[test]
fn battle_messages() {
    let h = hero();
    assert_eq!(texts(&bribe_failure(&h)), vec!["    hero[3][xx--] can't bribe!"]);
    assert_eq!(texts(&run_away_success(&h)), vec!["    hero[3][xx--] fled!"]);
    assert_eq!(texts(&run_away_failure(&h)), vec!["    hero[3][xx--] can't run!"]);
    assert_eq!(texts(&battle_lost(&h)), vec!["    hero[3][xx--] \u{1F480}"]);
    assert_eq!(
        texts(&bribe_success(&h, 15)),
        vec!["    hero[3][xx--] bribed -15g", ""]
    );
}

#[test]
fn attacks_hidden_in_quiet_mode() {
    let quiet = init(true, false);
    assert!(player_attack(&rat(), Attack::Regular(3), quiet).is_empty());
    assert!(enemy_attack(&hero(), Attack::Miss, quiet).is_empty());
    let loud = OutputMode::verbose();
    assert_eq!(
        texts(&player_attack(&rat(), Attack::Critical(4), loud)),
        vec!["     rat[1][xx--] -4hp critical!"]
    );
    assert_eq!(
        texts(&enemy_attack(&hero(), Attack::Miss, loud)),
        vec!["    hero[3][xx--]  dodged!"]
    );
}

#[test]
fn won_battle_lines() {
    let lines = battle_won(&game(), 20, 2, 15);
    assert_eq!(
        texts(&lines),
        vec!["    hero[3][xx--] +20xp ++level +15g", "    hero[3][xx--][x---]@~ "]
    );
    let lines = battle_won(&game(), 20, 0, 15);
    assert_eq!(texts(&lines)[0], "    hero[3][xx--] +20xp +15g");
}

#[test]
fn tombstone_line() {
    let items = vec!["potion".to_string(), "sword".to_string()];
    let lines = tombstone("~/dungeon", &items, 30);
    assert_eq!(
        texts(&lines),
        vec!["    hero[\u{1FAA6} ]@~/dungeon +30g +potion +sword"]
    );
    let lines = tombstone("~", &Vec::new(), 0);
    assert_eq!(texts(&lines), vec!["    hero[\u{1FAA6} ]@~"]);
}

#[test]
fn shop_listing() {
    let items = vec![
        ShopItem { display: "potion".to_string(), cost: 10 },
        ShopItem { display: "sword[2]".to_string(), cost: 250 },
    ];
    let lines = shop_list(&game(), &items);
    assert_eq!(
        texts(&lines),
        vec!["    potion      10g", "    sword[2]    250g", "", "    funds: 100g"]
    );
}

#[test]
fn gold_texts() {
    assert_eq!(format_gold(-5).text, "-5g");
    assert_eq!(format_gold_plus(12).text, "+12g");
    assert_eq!(format_gold(0).color, Some(Color::Yellow));
}

#[test]
fn decimal_and_padding() {
    assert_eq!(int_text(0), "0");
    assert_eq!(int_text(-1203), "-1203");
    assert_eq!(int_text(i32::MIN), "-2147483648");
    assert_eq!(int_text(i32::MAX), "2147483647");
    assert_eq!(pad_left("ab", 4), "  ab");
    assert_eq!(pad_left("abcdef", 4), "abcdef");
    assert_eq!(pad_right("ab", 4), "ab  ");
}

#[test]
fn render_unstyled_line_is_its_text() {
    let line = vec![Span::plain("a b".to_string()), Span::plain("c".to_string())];
    assert_eq!(render_line(&line), "a bc");
}

#[test]
fn render_styled_line_with_colors_on() {
    colored::control::set_override(true);
    let line = vec![
        Span::plain("[".to_string()),
        Span::colored("xx".to_string(), Color::Green),
        Span::plain("]".to_string()),
    ];
    assert_eq!(render_line(&line), "[\x1b[32mxx\x1b[0m]");
    let bold = Span { text: "hero".to_string(), color: Some(Color::Yellow), bold: true };
    assert_eq!(bold.render(), "\x1b[1;33mhero\x1b[0m");
    let bold = Span { text: "hero".to_string(), color: None, bold: true };
    assert_eq!(bold.render(), "\x1b[1mhero\x1b[0m");
}

#[test]
fn render_styled_line_with_colors_off() {
    colored::control::set_override(false);
    let line = vec![Span::colored("-3hp".to_string(), Color::BrightRed)];
    assert_eq!(render_line(&line), "-3hp");
}
