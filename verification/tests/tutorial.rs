use deckbuilder::guide;
use deckbuilder::tutorial::TutorialState;

const SUMMARY: &str = "--------------------------------------------------
BATTLE ACTION SUMMARY:
--------------------------------------------------
1. Your Move:
   You played: Avalanche (Attack: 5, Defense: 0)

2. Your Attack:
   Enemy Health: 20 -> 13  (*-7 damage*)

3. Enemy Counterattack:
   Your Health: 30 -> 28   (*-2 damage*)
   

4. Final Status:
   YOU  - Health: 28, Cards in hand: 4
   ENEMY - Health: 13, Attack: 2
--------------------------------------------------
Great job! You've successfully attacked the enemy and survived their counterattack.
Press Enter to continue the tutorial.";

fn at_step(step: usize, seed: u64) -> TutorialState {
    let mut tutorial = TutorialState::with_seed(seed);
    while tutorial.step() < step {
        let input = if tutorial.step() == 2 { "1" } else { "" };
        tutorial.handle_input(input);
    }
    tutorial
}

#[test]
fn walkthrough_starts_at_the_welcome() {
    let tutorial = TutorialState::new();
    assert_eq!(tutorial.step(), 0);
    assert!(!tutorial.is_complete());
    assert_eq!(
        tutorial.get_current_instruction(),
        "Welcome to the Deckbuilder Tutorial! Let's start by looking at your hand. Press Enter to continue."
    );
    assert_eq!(tutorial.game().get_hand().len(), 5);
    assert_eq!(tutorial.game().get_enemy_health(), 20);
    assert_eq!(tutorial.play_result(), "");
}

#[test]
fn empty_line_leads_through_the_first_steps() {
    let mut tutorial = TutorialState::with_seed(1);
    assert_eq!(tutorial.handle_input(""), "");
    assert_eq!(tutorial.step(), 1);
    assert_eq!(
        tutorial.get_current_instruction(),
        "You start with 5 cards in your hand. Each card has an Attack and Defense value. Press Enter to continue."
    );
    assert_eq!(tutorial.handle_input(""), "");
    assert_eq!(tutorial.step(), 2);
    assert_eq!(
        tutorial.get_current_instruction(),
        "Let's play your first card. Type '1' to play the first card in your hand."
    );
}

#[test]
fn anything_but_the_empty_line_is_corrected() {
    let mut tutorial = TutorialState::with_seed(2);
    for input in ["1", " ", "next", "\n"] {
        assert_eq!(tutorial.handle_input(input), "Press Enter to continue.");
        assert_eq!(tutorial.step(), 0);
    }
    let mut later = at_step(4, 2);
    let health = later.game().get_player_health();
    let log = later.game().get_log().len();
    assert_eq!(later.handle_input("go"), "Press Enter to continue.");
    assert_eq!(later.step(), 4);
    assert_eq!(later.game().get_player_health(), health);
    assert_eq!(later.game().get_log().len(), log);
}

#[test]
fn step_two_takes_nothing_but_one() {
    let mut tutorial = at_step(2, 3);
    let log = tutorial.game().get_log().len();
    for input in ["", "2", "11", "1 ", " 1", "one", "١"] {
        assert_eq!(
            tutorial.handle_input(input),
            "Please type '1' to play the first card."
        );
        assert_eq!(tutorial.step(), 2);
        assert_eq!(tutorial.game().get_hand().len(), 5);
        assert_eq!(tutorial.game().get_enemy_health(), 20);
        assert_eq!(tutorial.game().get_log().len(), log);
    }
}

#[test]
fn one_plays_the_first_card_and_the_summary_reports_it() {
    let mut tutorial = at_step(2, 4);
    assert_eq!(tutorial.handle_input("1"), "");
    assert_eq!(tutorial.step(), 3);
    assert_eq!(tutorial.game().get_enemy_health(), 13);
    assert_eq!(tutorial.game().get_player_health(), 28);
    assert_eq!(tutorial.game().get_hand().len(), 4);
    assert_eq!(tutorial.get_current_instruction(), SUMMARY);
    let log = tutorial.game().get_log();
    assert_eq!(log[log.len() - 1], tutorial.play_result());
    assert!(tutorial.play_result().starts_with(
        "Played card: Avalanche (Mana cost: 3). You dealt 7 damage. Enemy health: 20 -> 13. Your health: 30 -> 28.\nMountain Sentinel reacts: \""
    ));
}

#[test]
fn enemy_turn_is_shown_and_summed_up() {
    let mut tutorial = at_step(4, 5);
    assert_eq!(
        tutorial.get_current_instruction(),
        "Now it's the enemy's turn. They will attack you. Press Enter to see what happens."
    );
    let before = tutorial.game().get_player_health();
    let answer = tutorial.handle_input("");
    assert_eq!(tutorial.step(), 5);
    let after = tutorial.game().get_player_health();
    let damage = before.saturating_sub(after);
    assert_eq!(
        answer,
        format!("The enemy attacks! You take {} damage.", damage)
    );
    assert_eq!(
        tutorial.get_current_instruction(),
        format!(
            "The enemy attacked you! You took {} damage. Your health decreased from {} to {}. The game continues until either you or the enemy runs out of health. Press Enter to continue.",
            damage, before, after
        )
    );
}

#[test]
fn enemy_turn_of_the_walkthrough_surges() {
    for seed in 0..30 {
        let mut tutorial = at_step(4, seed);
        let log = tutorial.game().get_log().len();
        tutorial.handle_input("");
        let lines = tutorial.game().get_log();
        if lines.len() == log + 3 {
            assert_eq!(tutorial.game().get_player_health(), 25);
            assert_eq!(
                lines[log],
                "Mountain Sentinel surges with power, increasing its attack!"
            );
        }
    }
}

#[test]
fn walkthrough_ends_after_seven_steps() {
    let mut tutorial = at_step(5, 6);
    assert_eq!(tutorial.handle_input(""), "");
    assert_eq!(tutorial.step(), 6);
    assert!(!tutorial.is_complete());
    assert_eq!(
        tutorial.get_current_instruction(),
        "That's the basics of combat! Keep playing cards and defeating enemies. Press Enter to finish the tutorial."
    );
    assert_eq!(tutorial.handle_input("x"), "Press Enter to continue.");
    assert_eq!(tutorial.step(), 6);
    assert_eq!(tutorial.handle_input(""), "");
    assert_eq!(tutorial.step(), 7);
    assert!(tutorial.is_complete());
    assert_eq!(
        tutorial.get_current_instruction(),
        "Tutorial complete! You can now start a real game."
    );
    assert_eq!(tutorial.handle_input(""), "");
    assert_eq!(tutorial.step(), 8);
    assert!(tutorial.is_complete());
    assert_eq!(
        tutorial.get_current_instruction(),
        "Tutorial complete! You can now start a real game."
    );
}

#[test]
fn finished_walkthrough_hands_over_its_game() {
    let tutorial = at_step(7, 7);
    let health = tutorial.game().get_player_health();
    let enemy_health = tutorial.game().get_enemy_health();
    let hand = tutorial.game().get_hand().len();
    let lines = tutorial.game().get_log().len();
    assert!(lines >= 20 + 3 + 2);
    let mut game = tutorial.into_game();
    assert_eq!(game.get_enemy_health(), enemy_health);
    assert_eq!(game.get_player_health(), health);
    assert_eq!(game.get_log().len(), lines);
    assert_eq!(game.get_hand().len(), hand);
    assert_eq!(game.player.current_mana, 7);
    assert_eq!(game.enemy.rage, 7);
    game.increment_turn();
    assert_eq!(game.get_turn_count(), 1);
}

#[test]
fn next_step_advances_and_instructs() {
    let mut tutorial = TutorialState::with_seed(8);
    assert_eq!(
        tutorial.next_step(),
        "You start with 5 cards in your hand. Each card has an Attack and Defense value. Press Enter to continue."
    );
    assert_eq!(tutorial.step(), 1);
    let mut later = at_step(3, 8);
    assert_eq!(
        later.next_step(),
        "Now it's the enemy's turn. They will attack you. Press Enter to see what happens."
    );
    assert_eq!(later.step(), 4);
}

#[test]
fn each_step_accepts_its_own_input_only() {
    let mut tutorial = TutorialState::with_seed(9);
    for step in 0..9 {
        assert_eq!(tutorial.step(), step);
        assert!(tutorial.is_well_formed());
        if step == 2 {
            assert!(tutorial.accepts_input("1"));
            assert!(!tutorial.accepts_input(""));
            assert!(!tutorial.accepts_input("12"));
            assert!(!tutorial.accepts_input("é"));
            tutorial.handle_input("1");
        } else {
            assert!(tutorial.accepts_input(""));
            assert!(!tutorial.accepts_input("1"));
            assert!(!tutorial.accepts_input(" "));
            tutorial.handle_input("");
        }
    }
}

#[test]
fn play_without_defense_has_nothing_blocked() {
    let mut tutorial = at_step(2, 10);
    tutorial.handle_input("1");
    assert!(!tutorial.get_current_instruction().contains("You blocked"));
}

#[test]
fn blocked_damage_is_remarked_on_in_the_summary() {
    let note = guide::blocked_note(2, "Stone Shield");
    assert_eq!(
        note,
        "(You blocked 2 damage with your Stone Shield's defense!)"
    );
    let summary = guide::battle_summary("Stone Shield", 1, 3, 20, 19, 1, 30, 33, 0, &note, 4, 2);
    let expected = "--------------------------------------------------
BATTLE ACTION SUMMARY:
--------------------------------------------------
1. Your Move:
   You played: Stone Shield (Attack: 1, Defense: 3)

2. Your Attack:
   Enemy Health: 20 -> 19  (*-1 damage*)

3. Enemy Counterattack:
   Your Health: 30 -> 33   (*-0 damage*)
   (You blocked 2 damage with your Stone Shield's defense!)

4. Final Status:
   YOU  - Health: 33, Cards in hand: 4
   ENEMY - Health: 19, Attack: 2
--------------------------------------------------
Great job! You've successfully attacked the enemy and survived their counterattack.
Press Enter to continue the tutorial.";
    assert_eq!(summary, expected);
}
