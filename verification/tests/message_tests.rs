use server_warden::console::{announcement_line, command_line, console_line, tellraw};
use server_warden::notify::{launch_body, shutdown_body, webhook_address};
use server_warden::reminder::Threshold;
use server_warden::supervisor::{Notice, ServerCommand};

const WHEN: &str = "2020-05-01 14:30:00 +01:00";

#[test]
fn tellraw_carries_message_and_tooltip() {
    assert_eq!(
        tellraw("Time's Up!", WHEN),
        "tellraw @a {\"text\":\"Time's Up!\",\"color\":\"#FBA800\",\"hoverEvent\":{\"action\":\"show_text\",\"contents\":{\"text\":\"Scheduled shutdown time: 2020-05-01 14:30:00 +01:00\"}}}"
    );
}

#[test]
fn console_lines_end_with_a_line_feed() {
    assert_eq!(console_line("stop"), "stop\n");
    assert_eq!(command_line(ServerCommand::SaveAll), "save-all\n");
    assert_eq!(command_line(ServerCommand::Stop), "stop\n");
    assert_eq!(
        announcement_line(Notice::Closing(Threshold::OneHour), WHEN),
        format!("{}\n", tellraw("Server closing in one hour.", WHEN))
    );
    assert_eq!(announcement_line(Notice::TimeUp, WHEN), format!("{}\n", tellraw("Time's Up!", WHEN)));
}

#[test]
fn shutdown_body_is_exact() {
    assert_eq!(
        shutdown_body("Launcher"),
        "{\"avatar_url\":\"https://i.imgur.com/KeSlNUv.png\",\"content\":\"Server has shutdown.\",\"username\":\"Launcher\"}"
    );
}

#[test]
fn launch_body_is_exact() {
    assert_eq!(
        launch_body("Launcher", "world", "1.16.5", "alice", WHEN),
        "{\"avatar_url\":\"https://i.imgur.com/KeSlNUv.png\",\"content\":\"Launching server...\",\"embeds\":[{\"color\":3451439,\"fields\":[{\"inline\":true,\"name\":\"Level Name:\",\"value\":\"`world`\"},{\"inline\":true,\"name\":\"Minecraft Version:\",\"value\":\"`1.16.5`\"},{\"inline\":true,\"name\":\"Server Host:\",\"value\":\"`alice`\"},{\"name\":\"Shutdown scheduled for:\",\"value\":\"`2020-05-01 14:30:00 +01:00`\"}],\"footer\":{\"icon_url\":\"https://i.imgur.com/DHgRvnF.png\",\"text\":\"Server Info\"}}],\"username\":\"Launcher\"}"
    );
}

#[test]
fn launch_body_parses_to_the_expected_message() {
    let body = launch_body("My \"Launcher\"", "new\nworld", "1.16.5", "a\\b", WHEN);
    let value: serde_json::Value = serde_json::from_str(&body).unwrap();
    assert_eq!(value["content"], "Launching server...");
    assert_eq!(value["username"], "My \"Launcher\"");
    assert_eq!(value["avatar_url"], "https://i.imgur.com/KeSlNUv.png");
    let embed = &value["embeds"][0];
    assert_eq!(value["embeds"].as_array().unwrap().len(), 1);
    assert_eq!(embed["color"], 3451439);
    assert_eq!(embed["footer"]["icon_url"], "https://i.imgur.com/DHgRvnF.png");
    assert_eq!(embed["footer"]["text"], "Server Info");
    let fields = embed["fields"].as_array().unwrap();
    assert_eq!(fields.len(), 4);
    assert_eq!(fields[0]["name"], "Level Name:");
    assert_eq!(fields[0]["value"], "`new\nworld`");
    assert_eq!(fields[0]["inline"], true);
    assert_eq!(fields[1]["name"], "Minecraft Version:");
    assert_eq!(fields[1]["value"], "`1.16.5`");
    assert_eq!(fields[1]["inline"], true);
    assert_eq!(fields[2]["name"], "Server Host:");
    assert_eq!(fields[2]["value"], "`a\\b`");
    assert_eq!(fields[2]["inline"], true);
    assert_eq!(fields[3]["name"], "Shutdown scheduled for:");
    assert_eq!(fields[3]["value"], format!("`{}`", WHEN));
    assert!(fields[3].get("inline").is_none());
    assert_eq!(serde_json::to_string(&value).unwrap(), body);
}

#[test]
fn shutdown_body_escapes_the_name() {
    let body = shutdown_body("a \"quoted\" name");
    let value: serde_json::Value = serde_json::from_str(&body).unwrap();
    assert_eq!(value["username"], "a \"quoted\" name");
    assert_eq!(value["content"], "Server has shutdown.");
    assert_eq!(serde_json::to_string(&value).unwrap(), body);
}

#[test]
fn webhook_address_is_trimmed() {
    assert_eq!(webhook_address("https://example.invalid/hook\n"), "https://example.invalid/hook");
}
