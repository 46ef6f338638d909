use taskpipe::{channel, pump, Inlet, Outlet, PumpStop, TaskPipe};

fn collect_all<T: 'static + Send>(pipe: TaskPipe<T>) -> Vec<T> {
    pipe.join(|rx: Inlet<T>| {
        let mut rx = rx;
        let mut items = Vec::new();
        while let Some(item) = rx.recv() {
            items.push(item);
        }
        items
    })
}

#[test]
fn it_inputs_transforms_and_joins_to_main_all_items() {
    let result = taskpipe::input(|tx: Outlet<char>| {
        let mut tx = tx;
        // send radix-16 characters
        for c in "0123456789abcd".chars() {
            tx.send(c).unwrap();
        }
        tx
    })
    .input(|tx: Outlet<char>| {
        let mut tx = tx;
        // add an 'f'
        tx.send('f').unwrap();
        tx
    })
    .input(|tx: Outlet<char>| {
        let mut tx = tx;
        // add an 'e'
        tx.send('e').unwrap();
        tx
    })
    .pipe(|rx: Inlet<char>, tx: Outlet<u32>| {
        let mut rx = rx;
        let mut tx = tx;
        // Convert radix-16 characters to numbers
        while let Some(c) = rx.recv() {
            match c.to_digit(16) {
                Some(u) => tx.send(u).unwrap(),
                None => continue,
            };
        }
        tx
    })
    .pipe(|rx: Inlet<u32>, tx: Outlet<bool>| {
        let mut rx = rx;
        let mut tx = tx;
        // Even number detector
        while let Some(c) = rx.recv() {
            if c % 2 == 0 {
                tx.send(true).unwrap();
            } else {
                tx.send(false).unwrap();
            }
        }
        tx
    })
    .end(|rx: Inlet<bool>| {
        let mut rx = rx;
        // Count 'True'
        let mut count = 0;
        while let Some(c) = rx.recv() {
            if c {
                count += 1;
            }
        }
        count
    })
    .join();

    assert_eq!(result.ok().unwrap(), 8);
}

#[test]
fn counts_all_items_regardless_of_flag() {
    let result = taskpipe::input(|tx: Outlet<char>| {
        let mut tx = tx;
        for c in "0123456789abcd".chars() {
            tx.send(c).unwrap();
        }
        tx
    })
    .input(|tx: Outlet<char>| {
        let mut tx = tx;
        tx.send('f').unwrap();
        tx
    })
    .input(|tx: Outlet<char>| {
        let mut tx = tx;
        tx.send('e').unwrap();
        tx
    })
    .pipe(|rx: Inlet<char>, tx: Outlet<u32>| {
        let mut rx = rx;
        let mut tx = tx;
        while let Some(c) = rx.recv() {
            match c.to_digit(16) {
                Some(u) => tx.send(u).unwrap(),
                None => continue,
            };
        }
        tx
    })
    .pipe(|rx: Inlet<u32>, tx: Outlet<bool>| {
        let mut rx = rx;
        let mut tx = tx;
        while let Some(c) = rx.recv() {
            tx.send(c % 2 == 0).unwrap();
        }
        tx
    })
    .end(|rx: Inlet<bool>| {
        let mut rx = rx;
        let mut count = 0;
        while let Some(_c) = rx.recv() {
            count += 1;
        }
        count
    })
    .join();

    assert_eq!(result.ok().unwrap(), 16);
}

#[test]
fn single_source_order_is_preserved_through_a_pass_through_pipe() {
    let items = collect_all(
        taskpipe::input(|tx: Outlet<char>| {
            let mut tx = tx;
            for c in "pipeline".chars() {
                tx.send(c).unwrap();
            }
            tx
        })
        .pipe(|rx: Inlet<char>, tx: Outlet<char>| {
            let mut rx = rx;
            let mut tx = tx;
            let _ = pump(&mut rx, &mut tx);
            tx
        }),
    );
    let expected: Vec<char> = "pipeline".chars().collect();
    assert_eq!(items, expected);
}

#[test]
fn merged_sources_deliver_exactly_the_multiset_union() {
    let mut items = collect_all(
        taskpipe::input(|tx: Outlet<u32>| {
            let mut tx = tx;
            for n in [1u32, 2, 2, 3] {
                tx.send(n).unwrap();
            }
            tx
        })
        .input(|tx: Outlet<u32>| {
            let mut tx = tx;
            for n in [4u32, 4] {
                tx.send(n).unwrap();
            }
            tx
        })
        .input(|tx: Outlet<u32>| {
            let mut tx = tx;
            tx.send(5u32).unwrap();
            tx
        }),
    );
    items.sort();
    assert_eq!(items, vec![1, 2, 2, 3, 4, 4, 5]);
}

#[test]
fn merging_an_empty_source_passes_the_other_through_unchanged() {
    let items = collect_all(
        taskpipe::input(|tx: Outlet<u32>| tx).input(|tx: Outlet<u32>| {
            let mut tx = tx;
            for n in [10u32, 20, 30, 40] {
                tx.send(n).unwrap();
            }
            tx
        }),
    );
    assert_eq!(items, vec![10, 20, 30, 40]);
}

#[test]
fn transform_may_change_the_item_type_and_drop_invalid_items() {
    let items = collect_all(
        taskpipe::input(|tx: Outlet<char>| {
            let mut tx = tx;
            for c in "7z0f".chars() {
                tx.send(c).unwrap();
            }
            tx
        })
        .pipe(|rx: Inlet<char>, tx: Outlet<u32>| {
            let mut rx = rx;
            let mut tx = tx;
            while let Some(c) = rx.recv() {
                if let Some(u) = c.to_digit(16) {
                    tx.send(u).unwrap();
                }
            }
            tx
        }),
    );
    assert_eq!(items, vec![7, 0, 15]);
}

#[test]
fn join_returns_the_same_value_as_end_followed_by_blocking() {
    let build = || {
        taskpipe::input(|tx: Outlet<u32>| {
            let mut tx = tx;
            for n in [3u32, 1, 4, 1, 5] {
                tx.send(n).unwrap();
            }
            tx
        })
    };
    let sum_up = |rx: Inlet<u32>| {
        let mut rx = rx;
        let mut sum: u32 = 0;
        while let Some(n) = rx.recv() {
            sum += n;
        }
        sum
    };
    let joined = build().join(sum_up);
    let ended = build().end(sum_up).join().ok().unwrap();
    assert_eq!(joined, ended);
    assert_eq!(joined, 14);
}

#[test]
fn drain_consumes_every_item() {
    let (probe_tx, mut probe_rx) = channel::<u32>();
    taskpipe::input(|tx: Outlet<u32>| {
        let mut tx = tx;
        for n in [8u32, 9, 10] {
            tx.send(n).unwrap();
        }
        tx
    })
    .drain(move |rx: Inlet<u32>| {
        let mut rx = rx;
        let mut count: u32 = 0;
        while let Some(_n) = rx.recv() {
            count += 1;
        }
        let mut probe_tx = probe_tx;
        probe_tx.send(count).unwrap();
    });
    assert_eq!(probe_rx.recv(), Some(3));
}

#[test]
fn drain_may_stop_early_without_wedging_the_pipeline() {
    let (probe_tx, mut probe_rx) = channel::<bool>();
    taskpipe::input(|tx: Outlet<u32>| {
        let mut tx = tx;
        for n in 0..100u32 {
            tx.send(n).unwrap();
        }
        tx
    })
    .pipe(|rx: Inlet<u32>, tx: Outlet<u32>| {
        let mut rx = rx;
        let mut tx = tx;
        let _ = pump(&mut rx, &mut tx);
        tx
    })
    .drain(move |rx: Inlet<u32>| {
        let mut rx = rx;
        let _ = rx.recv();
        let mut probe_tx = probe_tx;
        probe_tx.send(true).unwrap();
    });
    assert_eq!(probe_rx.recv(), Some(true));
}

#[test]
fn send_to_a_channel_without_a_reader_hands_the_item_back() {
    let (mut tx, rx) = channel::<u8>();
    drop(rx);
    assert_eq!(tx.send(7), Err(7));
}

#[test]
fn receiving_from_a_closed_channel_reports_the_end_of_the_stream() {
    let (mut tx, mut rx) = channel::<u8>();
    tx.send(1).unwrap();
    tx.send(2).unwrap();
    drop(tx);
    assert_eq!(rx.recv(), Some(1));
    assert_eq!(rx.recv(), Some(2));
    assert_eq!(rx.recv(), None);
    assert_eq!(rx.recv(), None);
}

#[test]
fn pump_forwards_everything_and_reports_the_close() {
    let (mut src_tx, mut src_rx) = channel::<u32>();
    for n in [5u32, 6, 7] {
        src_tx.send(n).unwrap();
    }
    drop(src_tx);
    let (mut dst_tx, mut dst_rx) = channel::<u32>();
    match pump(&mut src_rx, &mut dst_tx) {
        PumpStop::Closed => {}
        _ => panic!("the source was finite and the destination had a reader"),
    }
    drop(dst_tx);
    assert_eq!(dst_rx.recv(), Some(5));
    assert_eq!(dst_rx.recv(), Some(6));
    assert_eq!(dst_rx.recv(), Some(7));
    assert_eq!(dst_rx.recv(), None);
}

#[test]
fn pump_stops_and_returns_the_item_in_flight_when_the_reader_is_gone() {
    let (mut src_tx, mut src_rx) = channel::<u32>();
    src_tx.send(41).unwrap();
    src_tx.send(42).unwrap();
    drop(src_tx);
    let (mut dst_tx, dst_rx) = channel::<u32>();
    drop(dst_rx);
    match pump(&mut src_rx, &mut dst_tx) {
        PumpStop::Disconnected(lost) => assert_eq!(lost, 41),
        _ => panic!("the destination had no reader"),
    }
}
