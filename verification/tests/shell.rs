use pty_sessions::shell::{FALLBACK_SHELL, WINDOWS_SHELL};
use pty_sessions::{resolve_shell, HostOs, TerminalSize};

#[test]
fn windows_host_gets_the_fixed_shell() {
    assert_eq!(resolve_shell(HostOs::Windows, None), "powershell.exe");
    assert_eq!(resolve_shell(HostOs::Windows, Some("/bin/bash")), "powershell.exe");
    assert_eq!(WINDOWS_SHELL, "powershell.exe");
}

#[test]
fn other_host_takes_the_shell_variable() {
    assert_eq!(resolve_shell(HostOs::Other, Some("/bin/bash")), "/bin/bash");
    assert_eq!(resolve_shell(HostOs::Other, Some("/usr/local/bin/fish")), "/usr/local/bin/fish");
}

#[test]
fn other_host_falls_back_without_the_variable() {
    assert_eq!(resolve_shell(HostOs::Other, None), "/bin/zsh");
    assert_eq!(FALLBACK_SHELL, "/bin/zsh");
}

#[test]
fn an_empty_shell_variable_is_taken_as_it_is() {
    assert_eq!(resolve_shell(HostOs::Other, Some("")), "");
}

#[test]
fn cells_leaves_the_pixel_extents_unused() {
    let size = TerminalSize::cells(24, 80);
    assert_eq!(size, TerminalSize { rows: 24, cols: 80, pixel_width: 0, pixel_height: 0 });
    let wide = TerminalSize::cells(40, 120);
    assert_eq!(wide.rows, 40);
    assert_eq!(wide.cols, 120);
    assert_eq!(wide.pixel_width, 0);
    assert_eq!(wide.pixel_height, 0);
}

#[test]
fn cells_accepts_the_extreme_dimensions() {
    let none = TerminalSize::cells(0, 0);
    assert_eq!(none, TerminalSize { rows: 0, cols: 0, pixel_width: 0, pixel_height: 0 });
    let most = TerminalSize::cells(u16::MAX, u16::MAX);
    assert_eq!(most, TerminalSize { rows: 65535, cols: 65535, pixel_width: 0, pixel_height: 0 });
}
