use docker_archives::command::handle_docker_command;
use docker_archives::command::Action;
use docker_archives::command::Config;
use docker_archives::command::DockerAction;
use docker_archives::command::DockerCommand;
use docker_archives::command::Event;
use docker_archives::command::Machine;
use docker_archives::command::Step;
use docker_archives::errors::CommandError;
use docker_archives::errors::CommandSuccess;

fn config() -> Config {
    Config {
        image_folder: "/images".to_string(),
        api_image_name: "api".to_string(),
    }
}

fn pending(step: Step) -> (Machine, Action) {
    match step {
        Step::Pending(m, a) => (m, a),
        Step::Done(r) => panic!("expected a pending step, got {:?}", r),
    }
}

fn done(step: Step) -> Result<CommandSuccess, CommandError> {
    match step {
        Step::Done(r) => r,
        Step::Pending(_, a) => panic!("expected a final step, got action {:?}", a),
    }
}

#[test]
fn save_without_name_fails_immediately() {
    let cmd = DockerCommand { docker_action: DockerAction::Save(None) };
    let r = done(handle_docker_command(config(), cmd));
    let err = r.unwrap_err();
    assert_eq!(err, CommandError::MissingName);
    assert_eq!(err.message(), "please provide a name for the image".to_string());
}

#[test]
fn save_runs_external_save_into_destination() {
    let cmd = DockerCommand { docker_action: DockerAction::Save(Some("web".to_string())) };
    let (m, a) = pending(handle_docker_command(config(), cmd));
    assert_eq!(
        a,
        Action::RunSave {
            destination: "/images/web.tar".to_string(),
            image: "api".to_string(),
        }
    );
    let r = done(m.on_event(Event::ProcessDone(true)));
    assert_eq!(r, Ok(CommandSuccess::Saved));
}

#[test]
fn failed_save_reports_fixed_message() {
    let cmd = DockerCommand { docker_action: DockerAction::Save(Some("web".to_string())) };
    let (m, _) = pending(handle_docker_command(config(), cmd));
    let r = done(m.on_event(Event::ProcessDone(false)));
    assert_eq!(
        r,
        Err(CommandError::ExternalProcessFailure(
            "could not save docker image".to_string()
        ))
    );
}

#[test]
fn named_load_checks_then_pipes_the_archive() {
    let cmd = DockerCommand { docker_action: DockerAction::Load(Some("web".to_string())) };
    let (m, a) = pending(handle_docker_command(config(), cmd));
    assert_eq!(a, Action::CheckArchive("/images/web.tar".to_string()));
    let (m, a) = pending(m.on_event(Event::Exists(true)));
    assert_eq!(a, Action::RunLoad { archive: "/images/web.tar".to_string() });
    let r = done(m.on_event(Event::ProcessDone(true)));
    assert_eq!(r, Ok(CommandSuccess::Loaded));
}

#[test]
fn load_of_missing_archive_reports_not_found() {
    let cmd = DockerCommand { docker_action: DockerAction::Load(Some("gone".to_string())) };
    let (m, _) = pending(handle_docker_command(config(), cmd));
    let r = done(m.on_event(Event::Exists(false)));
    assert_eq!(r, Err(CommandError::ArchiveNotFound("/images/gone.tar".to_string())));
}

#[test]
fn failed_load_reports_fixed_message() {
    let cmd = DockerCommand { docker_action: DockerAction::Load(Some("web".to_string())) };
    let (m, _) = pending(handle_docker_command(config(), cmd));
    let (m, _) = pending(m.on_event(Event::Exists(true)));
    let r = done(m.on_event(Event::ProcessDone(false)));
    assert_eq!(
        r,
        Err(CommandError::ExternalProcessFailure(
            "could not load docker image".to_string()
        ))
    );
}

#[test]
fn interactive_remove_runs_selection_over_tar_entries() {
    // ArchiveDirectory = /images, containing exactly web.tar: Remove with no
    // name selects over ["web.tar"], resolves /images/web.tar, deletes it,
    // and reports success echoing that path.
    let cmd = DockerCommand { docker_action: DockerAction::Remove(None) };
    let (m, a) = pending(handle_docker_command(config(), cmd));
    assert_eq!(a, Action::ListArchives("/images".to_string()));
    let (m, a) = pending(m.on_event(Event::Entries(vec!["web.tar".to_string()])));
    assert_eq!(a, Action::SelectArchive(vec!["web.tar".to_string()]));
    let (m, a) = pending(m.on_event(Event::Selected("web.tar".to_string())));
    assert_eq!(a, Action::CheckArchive("/images/web.tar".to_string()));
    let (m, a) = pending(m.on_event(Event::Exists(true)));
    assert_eq!(a, Action::RunRemove { archive: "/images/web.tar".to_string() });
    let r = done(m.on_event(Event::ProcessDone(true)));
    assert_eq!(r, Ok(CommandSuccess::Removed("/images/web.tar".to_string())));
}

#[test]
fn selection_runs_over_tar_entries_only() {
    let cmd = DockerCommand { docker_action: DockerAction::Load(None) };
    let (m, _) = pending(handle_docker_command(config(), cmd));
    let listing = vec!["a.tar".to_string(), "b.tar".to_string(), "c.txt".to_string()];
    let (_, a) = pending(m.on_event(Event::Entries(listing)));
    assert_eq!(
        a,
        Action::SelectArchive(vec!["a.tar".to_string(), "b.tar".to_string()])
    );
}

#[test]
fn aborted_selection_ends_the_flow() {
    let cmd = DockerCommand { docker_action: DockerAction::Remove(None) };
    let (m, _) = pending(handle_docker_command(config(), cmd));
    let (m, _) = pending(m.on_event(Event::Entries(vec!["web.tar".to_string()])));
    let r = done(m.on_event(Event::Aborted));
    assert_eq!(r, Err(CommandError::SelectionAborted));
}

#[test]
fn remove_then_load_of_same_name_reports_not_found() {
    // Remove /images/x.tar, then resolve "x" again for Load: the file is
    // gone, so the second resolution fails with ArchiveNotFound.
    let cmd = DockerCommand { docker_action: DockerAction::Remove(Some("x".to_string())) };
    let (m, _) = pending(handle_docker_command(config(), cmd));
    let (m, a) = pending(m.on_event(Event::Exists(true)));
    assert_eq!(a, Action::RunRemove { archive: "/images/x.tar".to_string() });
    let r = done(m.on_event(Event::ProcessDone(true)));
    assert_eq!(r, Ok(CommandSuccess::Removed("/images/x.tar".to_string())));

    let cmd = DockerCommand { docker_action: DockerAction::Load(Some("x".to_string())) };
    let (m, a) = pending(handle_docker_command(config(), cmd));
    assert_eq!(a, Action::CheckArchive("/images/x.tar".to_string()));
    let r = done(m.on_event(Event::Exists(false)));
    assert_eq!(r, Err(CommandError::ArchiveNotFound("/images/x.tar".to_string())));
}

#[test]
fn failed_remove_reports_fixed_message() {
    let cmd = DockerCommand { docker_action: DockerAction::Remove(Some("x".to_string())) };
    let (m, _) = pending(handle_docker_command(config(), cmd));
    let (m, _) = pending(m.on_event(Event::Exists(true)));
    let r = done(m.on_event(Event::ProcessDone(false)));
    assert_eq!(
        r,
        Err(CommandError::ExternalProcessFailure(
            "could not remove docker image".to_string()
        ))
    );
}

#[test]
fn io_error_propagates_as_io_failure() {
    let cmd = DockerCommand { docker_action: DockerAction::Load(None) };
    let (m, _) = pending(handle_docker_command(config(), cmd));
    let r = done(m.on_event(Event::IoError("could not list /images".to_string())));
    let err = r.unwrap_err();
    assert_eq!(err, CommandError::IoFailure("could not list /images".to_string()));
    assert_eq!(err.message(), "could not list /images".to_string());
}
