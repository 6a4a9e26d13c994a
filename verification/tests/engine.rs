use bevy_app::{App, AppBuilder};
use bevy_discord_game_sdk::{DiscordPlugin, Host};
use bevy_ecs::system::{IntoSystem, NonSendMut};
use std::cell::Cell;
use std::rc::Rc;

/// Stands for the SDK client on a real engine: counts, where the test can
/// see it, how often its callbacks were run.
struct CountingClient {
    callbacks_run: Rc<Cell<u32>>,
}

fn run_counting_callbacks(client: NonSendMut<CountingClient>) {
    client.callbacks_run.set(client.callbacks_run.get() + 1);
}

/// Carries what the plugin registered with `host` over to the engine.
fn carry_over(host: Host<CountingClient>, app: &mut AppBuilder) -> usize {
    let records = host.records().len();
    let polling = host.is_polling();
    if let Some(client) = host.into_client() {
        app.insert_non_send_resource(client);
    }
    if polling {
        app.add_system(run_counting_callbacks.system());
    }
    records
}

fn run_updates(builder: &mut AppBuilder, updates: u32) -> App {
    let mut app = std::mem::take(&mut builder.app);
    for _ in 0..updates {
        app.update();
    }
    app
}

#[test]
fn engine_polls_once_per_update_after_success() {
    let callbacks_run = Rc::new(Cell::new(0));
    let mut host: Host<CountingClient> = Host::new();
    DiscordPlugin::new(5).build(&mut host, |_| {
        Ok(CountingClient { callbacks_run: callbacks_run.clone() })
    });
    let mut builder = App::build();
    assert_eq!(carry_over(host, &mut builder), 0);
    assert!(builder.world().get_non_send_resource::<CountingClient>().is_some());
    assert_eq!(callbacks_run.get(), 0);
    let app = run_updates(&mut builder, 6);
    assert_eq!(callbacks_run.get(), 6);
    assert!(app.world.get_non_send_resource::<CountingClient>().is_some());
}

#[test]
fn engine_runs_without_client_after_failure() {
    let mut host: Host<CountingClient> = Host::new();
    DiscordPlugin::new(5).build(&mut host, |_| Err(String::from("Discord is not running")));
    let mut builder = App::build();
    assert_eq!(carry_over(host, &mut builder), 1);
    assert!(builder.world().get_non_send_resource::<CountingClient>().is_none());
    let app = run_updates(&mut builder, 3);
    assert!(app.world.get_non_send_resource::<CountingClient>().is_none());
}
