use tatoteco::channel::{SelectionCommand, UpdateChannel};

fn command(path: &str) -> SelectionCommand {
    SelectionCommand { target_file: path.to_string() }
}

#[test]
fn new_channel_is_empty() {
    let mut channel = UpdateChannel::new();
    assert_eq!(channel.pending(), 0);
    assert_eq!(channel.receive(), None);
    assert_eq!(channel.pending(), 0);
}

#[test]
fn commands_come_out_in_the_order_they_went_in() {
    let mut channel = UpdateChannel::new();
    channel.send(command("/m/c.png"));
    channel.send(command("/m/a.png"));
    channel.send(command("/m/b.png"));
    assert_eq!(channel.pending(), 3);
    assert_eq!(channel.receive(), Some(command("/m/c.png")));
    assert_eq!(channel.receive(), Some(command("/m/a.png")));
    assert_eq!(channel.receive(), Some(command("/m/b.png")));
    assert_eq!(channel.receive(), None);
}

#[test]
fn each_command_is_delivered_once() {
    let mut channel = UpdateChannel::new();
    channel.send(command("/m/a.png"));
    assert_eq!(channel.receive(), Some(command("/m/a.png")));
    assert_eq!(channel.pending(), 0);
    assert_eq!(channel.receive(), None);
}

#[test]
fn sends_and_receives_may_alternate() {
    let mut channel = UpdateChannel::new();
    channel.send(command("1"));
    channel.send(command("2"));
    assert_eq!(channel.receive(), Some(command("1")));
    channel.send(command("3"));
    assert_eq!(channel.pending(), 2);
    assert_eq!(channel.receive(), Some(command("2")));
    assert_eq!(channel.receive(), Some(command("3")));
    assert_eq!(channel.receive(), None);
}

#[test]
fn the_same_command_may_be_sent_twice() {
    let mut channel = UpdateChannel::new();
    channel.send(command("/m/a.png"));
    channel.send(command("/m/a.png"));
    assert_eq!(channel.pending(), 2);
    assert_eq!(channel.receive(), Some(command("/m/a.png")));
    assert_eq!(channel.receive(), Some(command("/m/a.png")));
    assert_eq!(channel.receive(), None);
}

#[test]
fn a_flood_is_kept_whole_and_in_order() {
    let mut channel = UpdateChannel::new();
    for i in 0..10_000 {
        channel.send(command(&format!("/m/{i}.png")));
    }
    assert_eq!(channel.pending(), 10_000);
    for i in 0..10_000 {
        assert_eq!(channel.receive(), Some(command(&format!("/m/{i}.png"))));
    }
    assert_eq!(channel.receive(), None);
}
