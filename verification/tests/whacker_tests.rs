use mole_whacker::{Grid, HammerType, MoleError, MoleStatus, MoleWhacker, WhackRequest};

#[test]
fn test_whack_mole() {
    let mut whacker = MoleWhacker::new();

    let result = whacker.whack_mole(0, 0);

    assert!(result.is_ok() || result.is_err());
}

#[test]
fn test_style_points() {
    let whacker = MoleWhacker::new();
    let points = whacker.calculate_style_points(420);
    assert_eq!(points, 100);
}

#[test]
fn test_out_of_bounds_whack_mutates_nothing() {
    let mut whacker = MoleWhacker::new();
    assert!(matches!(whacker.whack_mole(100, 5), Err(MoleError::OutOfBounds)));
    assert!(matches!(whacker.whack_mole(5, 100), Err(MoleError::OutOfBounds)));
    assert!(matches!(whacker.whack_mole(100, 100), Err(MoleError::OutOfBounds)));

    let stats = whacker.get_statistics();
    assert_eq!(stats.moles_whacked, 0);
    assert_eq!(stats.last_latency_ns, 0);
    for x in 0..100 {
        for y in 0..100 {
            assert_eq!(whacker.get_cell(x, y).unwrap(), MoleStatus::Hidden);
        }
    }
}

#[test]
fn test_exposed_whack_succeeds() {
    let mut whacker = MoleWhacker::new();
    whacker.set_cell(5, 5, MoleStatus::Exposed).unwrap();

    let result = whacker.whack_mole(5, 5).unwrap();

    assert!(result.success);
    assert_eq!(result.force_tenths, 100);
    assert!(!result.mole_escaped);
    assert_eq!(result.style_points, 30);
    assert_eq!(result.message, "WHACK! Mole successfully neutralized!");
    assert_eq!(whacker.get_cell(5, 5).unwrap(), MoleStatus::Whacked);
    assert_eq!(whacker.get_statistics().moles_whacked, 1);
}

#[test]
fn test_second_whack_misses() {
    let mut whacker = MoleWhacker::new();
    whacker.set_cell(5, 5, MoleStatus::Exposed).unwrap();

    let first = whacker.whack_mole(5, 5).unwrap();
    assert!(first.success);

    let second = whacker.whack_mole(5, 5).unwrap();
    assert!(!second.success);
    assert!(!second.mole_escaped);
    assert_eq!(second.style_points, -10);
    assert_eq!(second.message, "Miss! No mole at this location.");
    assert_eq!(whacker.get_statistics().moles_whacked, 1);
}

#[test]
fn test_tunneling_escape_is_idempotent() {
    let mut whacker = MoleWhacker::new();
    whacker.set_cell(2, 3, MoleStatus::QuantumTunneling).unwrap();

    for _ in 0..2 {
        let result = whacker.whack_mole(2, 3).unwrap();
        assert!(!result.success);
        assert!(result.mole_escaped);
        assert_eq!(result.force_tenths, 0);
        assert_eq!(result.style_points, 0);
        assert_eq!(result.message, "Mole quantum tunneled to safety!");
        assert_eq!(whacker.get_cell(2, 3).unwrap(), MoleStatus::QuantumTunneling);
    }
    assert_eq!(whacker.get_statistics().moles_whacked, 0);
}

#[test]
fn test_detect_reports_exposed_in_row_major_order() {
    let mut whacker = MoleWhacker::new();
    whacker.set_cell(1, 2, MoleStatus::Exposed).unwrap();
    whacker.set_cell(0, 0, MoleStatus::Exposed).unwrap();
    whacker.set_cell(3, 4, MoleStatus::Whacked).unwrap();
    whacker.set_cell(5, 6, MoleStatus::QuantumTunneling).unwrap();
    whacker.set_cell(7, 8, MoleStatus::Emerging).unwrap();

    let moles = whacker.detect_moles_simd();

    assert_eq!(moles, vec![(0, 0), (1, 2)]);
}

#[test]
fn test_spawn_writes_at_most_a_batch_of_moles() {
    let mut whacker = MoleWhacker::new();
    whacker.spawn_random_moles();

    let mut changed = 0;
    for x in 0..100 {
        for y in 0..100 {
            let status = whacker.get_cell(x, y).unwrap();
            if status != MoleStatus::Hidden {
                changed += 1;
                assert!(
                    status == MoleStatus::Exposed || status == MoleStatus::QuantumTunneling
                );
            }
        }
    }
    assert!(changed >= 1 && changed <= 10);
    assert_eq!(whacker.get_statistics().moles_whacked, 0);
    assert_eq!(whacker.get_statistics().last_latency_ns, 0);
}

#[test]
fn test_force_tiers() {
    for (tier, expected) in [
        (HammerType::Foam, 100),
        (HammerType::Rubber, 250),
        (HammerType::Mjolnir, 99990),
    ] {
        let mut whacker = MoleWhacker::new_with_hammer(tier);
        whacker.set_cell(0, 0, MoleStatus::Exposed).unwrap();
        let result = whacker.whack_mole(0, 0).unwrap();
        assert!(result.success);
        assert_eq!(result.force_tenths, expected);
    }

    let mut whacker = MoleWhacker::new_with_hammer(HammerType::Quantum);
    whacker.set_cell(0, 0, MoleStatus::Exposed).unwrap();
    let result = whacker.whack_mole(0, 0).unwrap();
    assert!(result.success);
    assert!(result.force_tenths < 1000);
}

#[test]
fn test_style_point_formula_on_fresh_state() {
    let whacker = MoleWhacker::new();
    assert_eq!(whacker.calculate_style_points(100), 30);
    assert_eq!(whacker.calculate_style_points(55), 20);
    assert_eq!(whacker.calculate_style_points(300), 30);
    assert_eq!(whacker.calculate_style_points(420), 100);
}

#[test]
fn test_handle_whack_collapses_out_of_bounds() {
    let mut whacker = MoleWhacker::new();
    let req = WhackRequest { x: 100, y: 100, force: None };
    let result = whacker.handle_whack(&req);
    assert!(!result.success);
    assert!(!result.mole_escaped);
    assert_eq!(result.force_tenths, 0);
    assert_eq!(result.style_points, 0);
    assert_eq!(result.message, "Error: Invalid whack coordinates");
}

#[test]
fn test_handle_whack_reaches_the_cell() {
    let mut whacker = MoleWhacker::new();
    whacker.set_cell(9, 9, MoleStatus::Exposed).unwrap();
    let req = WhackRequest { x: 9, y: 9, force: Some("foam".to_string()) };
    let result = whacker.handle_whack(&req);
    assert!(result.success || result.mole_escaped);
}

#[test]
fn test_statistics_snapshot() {
    let whacker = MoleWhacker::new();
    let stats = whacker.get_statistics();
    assert_eq!(stats.moles_whacked, 0);
    assert_eq!(stats.last_latency_ns, 0);
    assert_eq!(stats.hammer_tier, HammerType::Foam);
    assert_eq!(stats.hammer_tier.label(), "Foam");
}

#[test]
fn test_grid_bounds() {
    let mut grid = Grid::new();
    assert_eq!(grid.get(0, 0).unwrap(), MoleStatus::Hidden);
    grid.set(99, 99, MoleStatus::Exposed).unwrap();
    assert_eq!(grid.get(99, 99).unwrap(), MoleStatus::Exposed);
    assert!(matches!(grid.get(100, 0), Err(MoleError::OutOfBounds)));
    assert!(matches!(grid.set(0, 100, MoleStatus::Exposed), Err(MoleError::OutOfBounds)));
}
