use solarance::stations::StationSize;

const ALL: [StationSize; 6] = [
    StationSize::Capital,
    StationSize::Large,
    StationSize::Medium,
    StationSize::Small,
    StationSize::Outpost,
    StationSize::Satellite,
];

#[test]
fn module_amounts() {
    let amounts: Vec<u8> = ALL.iter().map(|s| s.max_module_amount()).collect();
    assert_eq!(amounts, vec![13, 9, 7, 5, 3, 1]);
}

#[test]
fn base_costs() {
    assert_eq!(StationSize::Capital.calculate_base_cost(), 17_200_000);
    assert_eq!(StationSize::Large.calculate_base_cost(), 8_400_000);
    assert_eq!(StationSize::Medium.calculate_base_cost(), 5_200_000);
    assert_eq!(StationSize::Small.calculate_base_cost(), 2_800_000);
    assert_eq!(StationSize::Outpost.calculate_base_cost(), 1_200_000);
    assert_eq!(StationSize::Satellite.calculate_base_cost(), 400_000);
}

#[test]
fn health_and_shields() {
    assert_eq!(StationSize::Capital.calculate_base_health(), 169 * 25_000 + 100_000);
    assert_eq!(StationSize::Satellite.calculate_base_health(), 125_000);
    assert_eq!(StationSize::Medium.calculate_base_shields(), 49 * 50_000 + 200_000);
    assert_eq!(StationSize::Satellite.calculate_base_shields(), 250_000);
}

#[test]
fn upgrade_costs() {
    assert_eq!(StationSize::Small.calculate_upgrade_cost(StationSize::Small), 0);
    assert_eq!(StationSize::Satellite.calculate_upgrade_cost(StationSize::Outpost), 800_000 + 2);
    assert_eq!(StationSize::Outpost.calculate_upgrade_cost(StationSize::Capital), 16_000_000 + 10);
}

#[test]
fn upgrade_costs_compose() {
    for (i, a) in ALL.iter().enumerate().rev() {
        for (j, b) in ALL.iter().enumerate().take(i + 1).rev() {
            for c in ALL.iter().take(j + 1) {
                assert_eq!(
                    a.calculate_upgrade_cost(*b) + b.calculate_upgrade_cost(*c),
                    a.calculate_upgrade_cost(*c)
                );
            }
        }
    }
}

#[test]
fn bigger_stations_cost_more() {
    for w in ALL.windows(2) {
        assert!(w[0].calculate_base_cost() > w[1].calculate_base_cost());
        assert!(w[0].calculate_base_health() > w[1].calculate_base_health());
        assert!(w[0].calculate_base_shields() > w[1].calculate_base_shields());
    }
}
