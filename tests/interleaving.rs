use kernel_console::critical::{core_start, core_step, CoreAction, CoreEvent, CoreState};
use kernel_console::vga_buf::Screen;

#[test]
fn interrupt_under_lock_waits_for_release() {
    let s = core_start();
    let (s, a) = core_step(s, CoreEvent::EnterCritical);
    assert_eq!(a, CoreAction::Nothing);
    let (s, a) = core_step(s, CoreEvent::KeyboardIrq);
    assert_eq!(a, CoreAction::Nothing);
    assert!(s.keyboard_pending);
    let (s, a) = core_step(s, CoreEvent::LeaveCritical);
    assert_eq!(a, CoreAction::RunKeyboardHandler);
    assert_eq!(s, CoreState { interrupts_enabled: true, lock_held: false, keyboard_pending: false });
    let (_, a) = core_step(s, CoreEvent::KeyboardIrq);
    assert_eq!(a, CoreAction::RunKeyboardHandler);
}

#[test]
fn randomized_interleavings_keep_display_consistent() {
    let mut seed: u64 = 0x2545_F491_4F6C_DD1D;
    for _round in 0..200 {
        let mut core = core_start();
        let mut screen = Screen::new();
        let mut expected = Screen::new();
        let mut mainline_open = false;
        for _ in 0..60 {
            seed = seed.wrapping_mul(6364136223846793005).wrapping_add(1442695040888963407);
            let pick = (seed >> 33) % 3;
            let event = match pick {
                0 if !core.lock_held => CoreEvent::EnterCritical,
                1 if core.lock_held => CoreEvent::LeaveCritical,
                _ => CoreEvent::KeyboardIrq,
            };
            let (next, action) = core_step(core, event);
            match event {
                CoreEvent::EnterCritical => {
                    mainline_open = true;
                    screen.print("[m");
                }
                CoreEvent::LeaveCritical => {
                    screen.print("]");
                    expected.print("[m]");
                    mainline_open = false;
                }
                CoreEvent::KeyboardIrq => {}
            }
            if action == CoreAction::RunKeyboardHandler {
                assert!(!next.lock_held && next.interrupts_enabled);
                assert!(!mainline_open);
                screen.print("k");
                expected.print("k");
            }
            assert!(!(next.lock_held && next.interrupts_enabled));
            core = next;
        }
        if core.lock_held {
            let (_, action) = core_step(core, CoreEvent::LeaveCritical);
            screen.print("]");
            expected.print("[m]");
            if action == CoreAction::RunKeyboardHandler {
                screen.print("k");
                expected.print("k");
            }
        }
        assert_eq!(screen.get_buffer().to_vec(), expected.get_buffer().to_vec());
        assert_eq!(screen.cursor_position(), expected.cursor_position());
    }
}
