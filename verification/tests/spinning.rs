use threadbeam::spinning::{channel, ThreadBeamRx};

fn recv<T: Send>(rx: ThreadBeamRx<T>) -> Option<T> {
    let mut rx = rx;
    loop {
        match rx.try_recv() {
            Ok(answer) => return answer,
            Err(back) => {
                rx = back;
                std::hint::spin_loop();
            }
        }
    }
}

#[test]
fn spinning_dropped_sender_gives_none() {
    let (tx, rx) = channel::<String>();
    drop(tx);
    assert!(matches!(rx.try_recv(), Ok(None)));
}

#[test]
fn spinning_early_send_is_received() {
    let (tx, rx) = channel::<String>();
    tx.send(String::from("Hello, world!"));
    assert_eq!(recv(rx).as_deref(), Some("Hello, world!"));
}

#[test]
fn spinning_try_recv_hands_the_handle_back_while_nothing_was_sent() {
    let (tx, rx) = channel::<u32>();
    let rx = match rx.try_recv() {
        Ok(_) => panic!("nothing was sent and the sender is still there"),
        Err(back) => back,
    };
    let rx = match rx.try_recv() {
        Ok(_) => panic!("nothing was sent and the sender is still there"),
        Err(back) => back,
    };
    tx.send(3);
    assert!(matches!(rx.try_recv(), Ok(Some(3))));
}

#[test]
fn spinning_never_recv() {
    let (tx, rx) = channel::<String>();
    tx.send(String::from("Hello, world!"));
    drop(rx);
}

#[test]
fn spinning_drop_rx_then_send() {
    let (tx, rx) = channel::<String>();
    drop(rx);
    tx.send(String::from("Hello, world!"));
}

#[test]
fn spinning_handles_of_one_channel_share_one_block() {
    let (tx_a, rx_a) = channel::<u32>();
    let (tx_b, rx_b) = channel::<u32>();
    tx_a.send(1);
    tx_b.send(2);
    assert_eq!(recv(rx_b), Some(2));
    assert_eq!(recv(rx_a), Some(1));
}
