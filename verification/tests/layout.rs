use hyperlight_core::mem::layout::{
    Buffer, GuestMemoryLayout, SandboxMemoryConfiguration, PAGE_SIZE, PEB_SIZE, STACK_COOKIE_LEN,
};
use hyperlight_core::mem::mgr::SandboxMemoryManager;
use hyperlight_core::types::{ErrorCode, GuestError, ReturnValue};

fn config() -> SandboxMemoryConfiguration {
    SandboxMemoryConfiguration {
        code_size: 0x1000,
        input_data_size: 0x400,
        output_data_size: 0x400,
        heap_size: 0x2000,
        stack_size: 0x1000,
    }
}

#[test]
fn layout_offsets_follow_one_another() {
    let l = GuestMemoryLayout::new(config()).unwrap();
    assert_eq!(l.peb_addr, 0);
    assert_eq!(l.code_addr, PEB_SIZE);
    assert_eq!(l.code_addr, 0x100);
    assert_eq!(l.shared_input_addr, 0x1100);
    assert_eq!(l.shared_input_capacity, 0x400);
    assert_eq!(l.shared_output_addr, 0x1500);
    assert_eq!(l.shared_output_capacity, 0x400);
    assert_eq!(l.heap_addr, 0x1900);
    assert_eq!(l.stack_cookie_addr, 0x3900);
    assert_eq!(l.stack_limit, 0x3900 + STACK_COOKIE_LEN);
    assert_eq!(l.stack_base, 0x4910);
    assert_eq!(l.stack_limit, l.stack_base - config().stack_size);
    assert_eq!(l.total_size, 0x5000);
    assert_eq!(l.total_size % PAGE_SIZE, 0);
    assert!(l.is_valid());
}

#[test]
fn layout_that_ends_on_a_page_is_not_padded() {
    let mut cfg = config();
    // everything but the stack takes 0x3910 bytes
    cfg.stack_size = 0x4000 - 0x3910;
    let l = GuestMemoryLayout::new(cfg).unwrap();
    assert_eq!(l.stack_base, 0x4000);
    assert_eq!(l.total_size, 0x4000);
}

#[test]
fn layout_needs_room_for_a_frame_prefix_in_each_buffer() {
    for which in 0..2 {
        let mut cfg = config();
        match which {
            0 => cfg.input_data_size = 3,
            _ => cfg.output_data_size = 3,
        }
        assert_eq!(GuestMemoryLayout::new(cfg), None);
    }
    let mut cfg = config();
    cfg.input_data_size = 4;
    assert!(GuestMemoryLayout::new(cfg).is_some());
}

#[test]
fn layout_that_leaves_the_address_space_is_refused() {
    let mut cfg = config();
    cfg.heap_size = usize::MAX - 0x1000;
    assert_eq!(GuestMemoryLayout::new(cfg), None);
    let mut cfg = config();
    cfg.stack_size = usize::MAX;
    assert_eq!(GuestMemoryLayout::new(cfg), None);
}

#[test]
fn layout_validity_is_checked() {
    let good = GuestMemoryLayout::new(config()).unwrap();
    let mut l = good;
    l.stack_cookie_addr += 1;
    assert!(!l.is_valid());
    let mut l = good;
    l.shared_output_addr = l.shared_input_addr;
    assert!(!l.is_valid());
    let mut l = good;
    l.total_size += 1;
    assert!(!l.is_valid());
    let mut l = good;
    l.peb_addr = 8;
    assert!(!l.is_valid());
    assert!(SandboxMemoryManager::new(l).is_none());
}

#[test]
fn buffers_are_named() {
    let l = GuestMemoryLayout::new(config()).unwrap();
    assert_eq!(l.buffer_addr(Buffer::SharedInput), l.shared_input_addr);
    assert_eq!(l.buffer_addr(Buffer::SharedOutput), l.shared_output_addr);
    assert_eq!(l.buffer_capacity(Buffer::SharedInput), 0x400);
    assert_eq!(l.buffer_capacity(Buffer::SharedOutput), 0x400);
}

#[test]
fn header_record_round_trips() {
    let l = GuestMemoryLayout::new(config()).unwrap();
    let record = l.to_peb(0xDEAD_BEEF);
    assert_eq!(record.len(), 13 * 8);
    assert_eq!(&record[..8], &[0xEF, 0xBE, 0xAD, 0xDE, 0, 0, 0, 0]);
    assert_eq!(&record[8..16], &[0, 1, 0, 0, 0, 0, 0, 0]);
    assert_eq!(GuestMemoryLayout::from_peb(&record), Some((0xDEAD_BEEF, l)));
    let mut longer = record.clone();
    longer.extend_from_slice(&[1, 2, 3]);
    assert_eq!(GuestMemoryLayout::from_peb(&longer), Some((0xDEAD_BEEF, l)));
}

#[test]
fn header_record_that_is_short_or_wrong_is_refused() {
    let l = GuestMemoryLayout::new(config()).unwrap();
    let record = l.to_peb(1);
    assert_eq!(GuestMemoryLayout::from_peb(&record[..record.len() - 1]), None);
    let mut bad = record.clone();
    // the cookie no longer lies right below the stack
    bad[9 * 8] ^= 1;
    assert_eq!(GuestMemoryLayout::from_peb(&bad), None);
    assert_eq!(GuestMemoryLayout::from_peb(&[0u8; 104]), None);
}

#[test]
fn new_memory_holds_nothing() {
    let l = GuestMemoryLayout::new(config()).unwrap();
    let m = SandboxMemoryManager::new(l).unwrap();
    assert_eq!(m.as_slice().len(), l.total_size);
    assert!(m.as_slice().iter().all(|b| *b == 0));
    assert_eq!(m.get_guest_error().unwrap(), GuestError::new(ErrorCode::NoError, String::new()));
    assert_eq!(m.get_host_error().unwrap(), None);
    assert_eq!(*m.get_layout(), l);
}

#[test]
fn writes_stay_within_their_buffer() {
    let l = GuestMemoryLayout::new(config()).unwrap();
    let mut m = SandboxMemoryManager::new(l).unwrap();
    m.set_stack_guard(&[0x5A; 16]);
    let before = m.as_slice().to_vec();
    m.write_response_from_host_method_call(&ReturnValue::Int(77)).unwrap();
    let after = m.as_slice().to_vec();
    let frame = ReturnValue::Int(77).encode().unwrap();
    assert_eq!(&after[l.shared_input_addr..l.shared_input_addr + frame.len()], &frame[..]);
    assert_eq!(&after[..l.shared_input_addr], &before[..l.shared_input_addr]);
    assert_eq!(
        &after[l.shared_input_addr + frame.len()..],
        &before[l.shared_input_addr + frame.len()..]
    );
    assert!(m.check_stack_guard(&[0x5A; 16]));
    assert!(!m.check_stack_guard(&[0x5B; 16]));
}

#[test]
fn frame_that_does_not_fit_its_buffer_is_refused() {
    let mut cfg = config();
    cfg.input_data_size = 8;
    let l = GuestMemoryLayout::new(cfg).unwrap();
    let mut m = SandboxMemoryManager::new(l).unwrap();
    let before = m.as_slice().to_vec();
    assert_eq!(
        m.write_response_from_host_method_call(&ReturnValue::Long(1)),
        Err(hyperlight_core::error::HyperlightError::FrameTooLarge)
    );
    assert_eq!(m.as_slice(), &before[..]);
    // a frame of exactly the capacity goes in
    assert_eq!(m.write_response_from_host_method_call(&ReturnValue::VecBytes(vec![1, 2])), Err(hyperlight_core::error::HyperlightError::FrameTooLarge));
    assert!(m.write_response_from_host_method_call(&ReturnValue::Bool(true)).is_ok());
    assert!(m.write_buffer(Buffer::SharedInput, &[1, 2, 3, 4, 5, 6, 7, 8]));
    assert!(!m.write_buffer(Buffer::SharedInput, &[1, 2, 3, 4, 5, 6, 7, 8, 9]));
}

#[test]
fn snapshot_and_restore() {
    let l = GuestMemoryLayout::new(config()).unwrap();
    let mut m = SandboxMemoryManager::new(l).unwrap();
    assert_eq!(m.restore_state(), Err(hyperlight_core::error::HyperlightError::NoSnapshot));
    m.write_response_from_host_method_call(&ReturnValue::Int(1)).unwrap();
    let kept = m.as_slice().to_vec();
    m.snapshot_state();
    m.write_response_from_host_method_call(&ReturnValue::Int(2)).unwrap();
    assert_ne!(m.as_slice(), &kept[..]);
    m.restore_state().unwrap();
    assert_eq!(m.as_slice(), &kept[..]);
}

#[test]
fn guest_memory_of_another_size_is_refused() {
    let l = GuestMemoryLayout::new(config()).unwrap();
    let mut m = SandboxMemoryManager::new(l).unwrap();
    assert_eq!(
        m.load_guest_memory(&vec![0u8; l.total_size - 1]),
        Err(hyperlight_core::error::HyperlightError::MemorySizeMismatch)
    );
    let image = vec![3u8; l.total_size];
    m.load_guest_memory(&image).unwrap();
    assert_eq!(m.as_slice(), &image[..]);
}

#[test]
fn code_is_loaded_where_it_runs_from() {
    let l = GuestMemoryLayout::new(config()).unwrap();
    let mut m = SandboxMemoryManager::new(l).unwrap();
    m.write_peb(9);
    assert!(m.load_code(&[0xF4, 0x90]));
    assert_eq!(&m.as_slice()[l.code_addr..l.code_addr + 2], &[0xF4, 0x90]);
    assert_eq!(GuestMemoryLayout::from_peb(m.as_slice()), Some((9, l)));
    assert!(!m.load_code(&vec![0u8; l.code_size + 1]));
}
