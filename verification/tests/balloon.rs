//! The balloon device and the guest's memory statistics.

use krun::balloon::device::{
    mib_to_pages, page_address, page_number_places, pages_to_release, places_fit, release_list,
    Balloon, BalloonControl,
};
use krun::balloon::events::{
    available_memory, handle_unsupported_queue, is_plain_readable, process, sources_to_register,
    stats_descriptor_len, BalloonSources, BalloonStep, QueueReport, QueueView, StatsQueue,
};
use krun::descriptor::Descriptor;
use krun::epoll::{EpollEvent, EventSet};
use krun::msb_metrics::{handle_rx_event, MsbMetricsStep, RxStep};
use vm_memory::{Bytes, GuestAddress, GuestMemoryMmap};

#[test]
fn mib_to_pages_uses_4kib_units() {
    assert_eq!(mib_to_pages(0), 0);
    assert_eq!(mib_to_pages(1), 256);
    assert_eq!(mib_to_pages(2048), 524_288);
    assert_eq!(mib_to_pages(u32::MAX), u32::MAX);
}

#[test]
fn new_starts_inflated_to_initial_target() {
    let initial = mib_to_pages(2048);
    let max = mib_to_pages(4096 - 512);
    let balloon = Balloon::new(initial, max);
    let num_pages = balloon.config().num_pages;
    assert_eq!(num_pages, initial);
    assert_eq!(balloon.control().target_pages(), initial);
}

#[test]
fn control_clamps_target_to_max() {
    let max = mib_to_pages(1024);
    let mut control = Balloon::new(0, max).control();
    assert_eq!(control.set_target_pages(max + 999), max);
    assert_eq!(control.target_pages(), max);
}

#[test]
fn set_target_mib_reclaims_difference_from_ceiling() {
    let ceiling = 8192;
    let max = mib_to_pages(ceiling - 512);
    let mut control = Balloon::new(0, max).control();
    assert_eq!(control.set_target_mib(6144, ceiling), mib_to_pages(2048));
    assert_eq!(control.set_target_mib(0, ceiling), max);
}

#[test]
fn target_reaches_the_guest() {
    let mut balloon = Balloon::new(0, 1000);
    let mut control: BalloonControl = balloon.control();
    control.set_target_pages(300);
    balloon.apply_control_target(&control);
    let mut bytes = [0u8; 4];
    balloon.read_config(0, &mut bytes);
    assert_eq!(u32::from_le_bytes(bytes), 300);
    assert!(balloon.write_config(4, &77u32.to_le_bytes()));
    balloon.read_config(4, &mut bytes);
    assert_eq!(u32::from_le_bytes(bytes), 77);
    assert!(!balloon.write_config(0, &77u32.to_le_bytes()));
    assert!(balloon.accepts_queues(1).is_err());
    assert!(balloon.activate(false).is_err());
    assert!(balloon.activate(true).is_ok());
    assert!(balloon.is_activated());
}

#[test]
fn unsupported_queues_ignore_empty_wakeups_but_report_real_work() {
    let event = EpollEvent::new(EventSet { bits: 1 }, 0);
    for (ready, consumed, available, expected) in [
        (false, 0, 1, false),
        (true, 0, 0, false),
        (true, u16::MAX, u16::MAX, false),
        (true, u16::MAX, 0, true),
        (true, 0, 1, true),
    ] {
        let queue = QueueView { ready, consumed, available };
        assert_eq!(
            handle_unsupported_queue(&event, true, &queue, true),
            if expected { QueueReport::Unsupported } else { QueueReport::Quiet }
        );
        assert_eq!(
            handle_unsupported_queue(&event, false, &queue, true),
            QueueReport::ReadFailed
        );
    }
    let odd = EpollEvent::new(EventSet { bits: 4 }, 0);
    assert!(!is_plain_readable(&odd));
    assert_eq!(
        handle_unsupported_queue(
            &odd,
            true,
            &QueueView { ready: true, consumed: 0, available: 1 },
            true,
        ),
        QueueReport::UnexpectedEvent
    );
}

fn sources() -> BalloonSources {
    BalloonSources {
        inflate: 10,
        deflate: 11,
        stats: 12,
        page_hinting: 13,
        free_page_reporting: 14,
        activate: 15,
        stats_timer: 16,
    }
}

#[test]
fn events_are_told_apart_by_their_source() {
    assert_eq!(process(&sources(), 12, true, true), BalloonStep::Stats);
    assert_eq!(process(&sources(), 14, true, true), BalloonStep::FreePages);
    assert_eq!(process(&sources(), 15, true, true), BalloonStep::Activate);
    assert_eq!(process(&sources(), 99, true, true), BalloonStep::Unexpected);
    assert_eq!(process(&sources(), 12, false, true), BalloonStep::Inactive);
    assert!(sources_to_register(&sources(), true).contains(&16));
    assert!(!sources_to_register(&sources(), false).contains(&16));
}

#[test]
fn statistics_are_read_from_tagged_values() {
    let mut bytes = Vec::new();
    bytes.extend_from_slice(&4u16.to_le_bytes());
    bytes.extend_from_slice(&123u64.to_le_bytes());
    bytes.extend_from_slice(&6u16.to_le_bytes());
    bytes.extend_from_slice(&456u64.to_le_bytes());
    assert_eq!(available_memory(&bytes), Some(456));
    assert_eq!(available_memory(&bytes[..10]), None);
    assert_eq!(
        stats_descriptor_len(&[Descriptor { addr: 0, len: 40, write_only: false }]),
        Some(40)
    );
    assert_eq!(stats_descriptor_len(&[]), Some(0));
    let huge = Descriptor { addr: 0, len: u32::MAX, write_only: false };
    assert_eq!(stats_descriptor_len(&[huge, huge]), None);
}

#[test]
fn statistics_descriptor_is_held_until_the_next_poll() {
    let mut queue = StatsQueue { desc_index: None, polling: false, max_desc_len: 100 };
    let chain = [Descriptor { addr: 0x1000, len: 40, write_only: false }];
    let step = queue.process_stq(5, &chain);
    assert!(step.read);
    assert_eq!(queue.desc_index, Some(5));
    assert_eq!(queue.trigger_stats_update(), Some(5));
    assert_eq!(queue.trigger_stats_update(), None);
}

#[test]
fn free_pages_are_read_from_guest_memory() {
    let mem = GuestMemoryMmap::from_ranges(&[(GuestAddress(0), 0x10000)]).unwrap();
    mem.write_slice(&3u32.to_le_bytes(), GuestAddress(0x1000)).unwrap();
    mem.write_slice(&5u32.to_le_bytes(), GuestAddress(0x1004)).unwrap();
    let chain = [Descriptor { addr: 0x1000, len: 8, write_only: false }];
    assert_eq!(page_number_places(&chain), vec![0x1000, 0x1004]);
    assert_eq!(page_address(3), 0x3000);
    assert_eq!(pages_to_release(&mem, &chain, true), vec![0x3000, 0x5000]);
    assert!(pages_to_release(&mem, &chain, false).is_empty());
}

#[test]
fn metrics_device_events() {
    assert_eq!(krun::msb_metrics::process(7, 7, 8, false), MsbMetricsStep::Inactive);
    assert_eq!(krun::msb_metrics::process(8, 7, 8, true), MsbMetricsStep::Receive);
    assert_eq!(
        handle_rx_event(&EpollEvent::new(EventSet { bits: 1 }, 0), false),
        RxStep::ReadFailed
    );
    assert_eq!(handle_rx_event(&EpollEvent::new(EventSet { bits: 1 }, 0), true), RxStep::Serve);
}

#[test]
fn unreadable_page_numbers_are_passed_over() {
    assert_eq!(release_list(&[Some(3), None, Some(5)]), vec![0x3000, 0x5000]);
    assert!(release_list(&[None]).is_empty());
    let mem = GuestMemoryMmap::from_ranges(&[(GuestAddress(0), 0x2000)]).unwrap();
    mem.write_slice(&7u32.to_le_bytes(), GuestAddress(0x1ffc)).unwrap();
    let chain = [Descriptor { addr: 0x1ffc, len: 8, write_only: false }];
    assert_eq!(pages_to_release(&mem, &chain, true), vec![0x7000]);
}

#[test]
fn page_numbers_stay_in_the_address_space() {
    let last = Descriptor { addr: u64::MAX - 3, len: 4, write_only: false };
    assert!(places_fit(&[last]));
    assert_eq!(page_number_places(&[last]), vec![u64::MAX - 3]);
    assert!(!places_fit(&[Descriptor { len: 8, ..last }]));
}
