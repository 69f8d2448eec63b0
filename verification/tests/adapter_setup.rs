use bitchat_mesh::error::Error;
use bitchat_mesh::setup::SetupStep;

fn names(list: &[&str]) -> Result<Vec<String>, String> {
    Ok(list.iter().map(|name| name.to_string()).collect())
}

fn fail() -> Result<Vec<String>, String> {
    Err("gone".to_string())
}

fn run(replies: Vec<Result<Vec<String>, String>>) -> Result<SetupStep, Error> {
    let mut step = SetupStep::begin();
    for reply in replies {
        step = step.advance(reply)?;
    }
    Ok(step)
}

fn bluetooth(text: &str) -> Result<SetupStep, Error> {
    Err(Error::Bluetooth(text.to_string()))
}

#[test]
fn setup_makes_its_calls_in_order() {
    let replies = || vec![names(&[]), names(&["hci1", "hci0"])];
    let mut so_far = replies();
    assert_eq!(run(vec![]), Ok(SetupStep::OpenSession));
    assert_eq!(run(vec![names(&[])]), Ok(SetupStep::ListAdapters));
    assert_eq!(run(so_far), Ok(SetupStep::OpenAdapter("hci1".to_string())));
    let expected = [
        SetupStep::SetPowered(true),
        SetupStep::SetPairable(false),
        SetupStep::SetPairableTimeout(0),
        SetupStep::SetDiscoverable(false),
        SetupStep::Ready,
        SetupStep::Ready,
    ];
    for (count, step) in expected.into_iter().enumerate() {
        so_far = replies();
        for _ in 0..count + 1 {
            so_far.push(names(&[]));
        }
        assert_eq!(run(so_far), Ok(step));
    }
}

#[test]
fn setup_fails_without_session() {
    assert_eq!(run(vec![fail()]), bluetooth("Failed to create session: gone"));
}

#[test]
fn setup_fails_without_listing() {
    assert_eq!(run(vec![names(&[]), fail()]), bluetooth("Failed to get adapter names: gone"));
}

#[test]
fn setup_fails_without_adapter() {
    assert_eq!(run(vec![names(&[]), names(&[])]), bluetooth("No Bluetooth adapter found"));
}

#[test]
fn setup_fails_when_adapter_does_not_open() {
    assert_eq!(
        run(vec![names(&[]), names(&["hci0"]), fail()]),
        bluetooth("Failed to get adapter: gone")
    );
}

#[test]
fn setup_fails_without_power() {
    assert_eq!(
        run(vec![names(&[]), names(&["hci0"]), names(&[]), fail()]),
        bluetooth("Failed to power on adapter: gone")
    );
}

#[test]
fn setup_tolerates_unsupported_settings() {
    assert_eq!(
        run(vec![
            names(&[]),
            names(&["hci0"]),
            names(&[]),
            names(&[]),
            fail(),
            fail(),
            fail(),
        ]),
        Ok(SetupStep::Ready)
    );
}
