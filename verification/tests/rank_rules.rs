use banqi::game::Color;
use banqi::piece::Piece;
use banqi::rank::rank_set;
use banqi::rank::Rank;

const ALL_RANKS: [Rank; 7] = [
    Rank::General,
    Rank::Advisor,
    Rank::Elephant,
    Rank::Chariot,
    Rank::Horse,
    Rank::Cannon,
    Rank::Soldier,
];

fn order_index(r: Rank) -> usize {
    ALL_RANKS.iter().position(|x| *x == r).unwrap()
}

#[test]
fn cannon_attacks_every_rank() {
    for d in ALL_RANKS {
        assert!(Rank::Cannon.can_attack(&d));
    }
}

#[test]
fn general_attacks_all_but_soldier() {
    for d in ALL_RANKS {
        assert_eq!(Rank::General.can_attack(&d), d != Rank::Soldier);
    }
}

#[test]
fn soldier_attacks_only_soldier_and_general() {
    for d in ALL_RANKS {
        assert_eq!(
            Rank::Soldier.can_attack(&d),
            d == Rank::Soldier || d == Rank::General
        );
    }
}

#[test]
fn middle_ranks_follow_the_order() {
    for a in ALL_RANKS {
        if a == Rank::General || a == Rank::Cannon || a == Rank::Soldier {
            continue;
        }
        for d in ALL_RANKS {
            assert_eq!(a.can_attack(&d), order_index(a) <= order_index(d));
        }
    }
}

#[test]
fn dominance_is_deterministic() {
    for a in ALL_RANKS {
        for d in ALL_RANKS {
            assert_eq!(a.can_attack(&d), a.can_attack(&d));
        }
    }
}

#[test]
fn equal_middle_ranks_capture_each_other() {
    assert!(Rank::Advisor.can_attack(&Rank::Advisor));
    assert!(Rank::Horse.can_attack(&Rank::Horse));
    assert!(!Rank::Horse.can_attack(&Rank::Chariot));
    assert!(Rank::Chariot.can_attack(&Rank::Horse));
}

#[test]
fn canonical_rank_set_composition() {
    let ranks = rank_set();
    assert_eq!(ranks.len(), 16);
    let count = |r: Rank| ranks.iter().filter(|x| **x == r).count();
    assert_eq!(count(Rank::General), 1);
    assert_eq!(count(Rank::Advisor), 2);
    assert_eq!(count(Rank::Elephant), 2);
    assert_eq!(count(Rank::Chariot), 2);
    assert_eq!(count(Rank::Horse), 2);
    assert_eq!(count(Rank::Cannon), 2);
    assert_eq!(count(Rank::Soldier), 5);
}

#[test]
fn piece_accessors_and_face_up() {
    let mut p = Piece::new(Rank::Horse, Color::Red);
    assert_eq!(p.rank(), Rank::Horse);
    assert_eq!(p.color(), Color::Red);
    assert!(!p.is_revealed());
    p.turn_face_up();
    assert!(p.is_revealed());
    assert_eq!(p.rank(), Rank::Horse);
    assert_eq!(p.color(), Color::Red);
}

#[test]
fn piece_dominance_matches_rank_dominance() {
    let cannon = Piece::new(Rank::Cannon, Color::Red);
    let general = Piece::new(Rank::General, Color::Black);
    let soldier = Piece::new(Rank::Soldier, Color::Black);
    assert!(cannon.can_attack(&general));
    assert!(!general.can_attack(&soldier));
    assert!(soldier.can_attack(&general));
}
