use ksh::help::help_text;

const NAMES: [&str; 14] = [
    "cd", "ls", "pwd", "echo", "cat", "cp", "mv", "mkdir", "rmdir", "rm", "touch", "chmod",
    "help", "exit",
];

fn expected_help(user: &str, dir: &str) -> String {
    let stars = "*".repeat(78);
    let border = format!("        +{}\n", "---------------+".repeat(4));
    let mut text = String::new();
    text += &format!("{}\n", stars);
    text += &format!("*{}*\n", " ".repeat(76));
    text += "*                    Welcome to Zheng Yunkun's First Shell!                  *\n";
    text += "*                                    ksh                                     *\n";
    text += &format!("*{}*\n", " ".repeat(76));
    text += &format!("{}\n\n", stars);
    text += "Type program names and arguments, and hit enter to execute.\n";
    text += "The following are built-in commands:\n\n";
    text += &border;
    for i in 1..=NAMES.len() {
        if i % 4 == 1 {
            text += "        ";
        }
        text += &format!(
            "|  ({}){}  \x1b[0;31m{:<7}\x1b[0m",
            i,
            if i < 10 { " " } else { "" },
            NAMES[i - 1]
        );
        if i % 4 == 0 {
            text += "|\n";
            text += &border;
        }
    }
    text += "|               |               |\n";
    text += &border;
    text += "\nUse the 'man' command for information on other programs.\n";
    text += "\nExamples:\n";
    for command in ["ls -l", "cd /home/user", "echo \"Hello, World!\""] {
        text += &format!(
            "  \x1b[35m{}\x1b[0m in \x1b[32m{}\x1b[0m \x1b[33m\u{3bb}\x1b[0m {}\n",
            user, dir, command
        );
    }
    text += "\nTips:\n";
    text += "  - Use 'cd' to change directories.\n";
    text += "  - Use 'exit' to quit the shell.\n";
    text += "  - Use 'help' to see this message again.\n";
    text += &format!("\n{}\n", stars);
    text += "*                                  Bye-bye                                   *\n";
    text += &format!("{}\n", stars);
    text
}

#[test]
fn help_text_is_the_whole_screen() {
    assert_eq!(help_text("alice", "/home/alice"), expected_help("alice", "/home/alice"));
    assert_eq!(help_text("", ""), expected_help("", ""));
}

#[test]
fn help_text_opens_with_the_banner() {
    let text = help_text("alice", "/home/alice");
    let lines: Vec<&str> = text.split('\n').collect();
    assert_eq!(lines[0], "*".repeat(78));
    assert_eq!(lines[0].len(), 78);
    assert_eq!(
        lines[2],
        "*                    Welcome to Zheng Yunkun's First Shell!                  *"
    );
    assert_eq!(lines[5], "*".repeat(78));
    assert_eq!(lines[6], "");
    assert_eq!(lines[7], "Type program names and arguments, and hit enter to execute.");
    assert_eq!(lines[8], "The following are built-in commands:");
    assert_eq!(lines[9], "");
}

#[test]
fn help_table_has_four_commands_in_a_row() {
    let text = help_text("alice", "/home/alice");
    let lines: Vec<&str> = text.split('\n').collect();
    let border = "        +---------------+---------------+---------------+---------------+";
    assert_eq!(lines[10], border);
    assert_eq!(
        lines[11],
        "        |  (1)   \x1b[0;31mcd     \x1b[0m|  (2)   \x1b[0;31mls     \x1b[0m|  (3)   \x1b[0;31mpwd    \x1b[0m|  (4)   \x1b[0;31mecho   \x1b[0m|"
    );
    assert_eq!(lines[12], border);
    assert_eq!(
        lines[15],
        "        |  (9)   \x1b[0;31mrmdir  \x1b[0m|  (10)  \x1b[0;31mrm     \x1b[0m|  (11)  \x1b[0;31mtouch  \x1b[0m|  (12)  \x1b[0;31mchmod  \x1b[0m|"
    );
    assert_eq!(lines[16], border);
}

#[test]
fn help_table_fills_the_last_row_with_empty_cells() {
    let text = help_text("alice", "/home/alice");
    let lines: Vec<&str> = text.split('\n').collect();
    assert_eq!(
        lines[17],
        "        |  (13)  \x1b[0;31mhelp   \x1b[0m|  (14)  \x1b[0;31mexit   \x1b[0m|               |               |"
    );
    assert_eq!(
        lines[18],
        "        +---------------+---------------+---------------+---------------+"
    );
    assert_eq!(lines[19], "");
}

#[test]
fn help_examples_show_the_user_and_the_directory() {
    let text = help_text("bob", "/srv/data");
    assert!(text.contains(
        "\nExamples:\n  \x1b[35mbob\x1b[0m in \x1b[32m/srv/data\x1b[0m \x1b[33m\u{3bb}\x1b[0m ls -l\n"
    ));
    assert!(text.contains(
        "  \x1b[35mbob\x1b[0m in \x1b[32m/srv/data\x1b[0m \x1b[33m\u{3bb}\x1b[0m cd /home/user\n"
    ));
    assert!(text.contains(
        "  \x1b[35mbob\x1b[0m in \x1b[32m/srv/data\x1b[0m \x1b[33m\u{3bb}\x1b[0m echo \"Hello, World!\"\n"
    ));
}

#[test]
fn help_text_closes_with_the_farewell() {
    let text = help_text("alice", "/home/alice");
    let tail = format!(
        "  - Use 'help' to see this message again.\n\n{0}\n*                                  Bye-bye                                   *\n{0}\n",
        "*".repeat(78)
    );
    assert!(text.ends_with(&tail));
}
