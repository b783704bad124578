use buzzkey::ports::{port_plan, select_port, PortError, PortPlan};

#[test]
fn plan_follows_port_count() {
    assert_eq!(port_plan(0), PortPlan::NoPort);
    assert_eq!(port_plan(1), PortPlan::Only);
    assert_eq!(port_plan(5), PortPlan::Ask);
}

#[test]
fn select_port_checks_the_choice() {
    assert_eq!(select_port(0, Some(0)), Err(PortError::NoPort));
    assert_eq!(select_port(1, None), Ok(0));
    assert_eq!(select_port(3, Some(2)), Ok(2));
    assert_eq!(select_port(3, Some(3)), Err(PortError::OutOfRange));
    assert_eq!(select_port(3, None), Err(PortError::NotANumber));
}
