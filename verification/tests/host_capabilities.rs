use herdr::host_capabilities::HostTerminalCapabilities;

#[test]
fn windows_starts_conservatively() {
    assert_eq!(
        HostTerminalCapabilities::initial_for_platform(true),
        HostTerminalCapabilities { kitty_graphics: false, synchronized_output: false }
    );
}

#[test]
fn unix_preserves_established_extensions() {
    assert_eq!(
        HostTerminalCapabilities::initial_for_platform(false),
        HostTerminalCapabilities { kitty_graphics: true, synchronized_output: true }
    );
}
