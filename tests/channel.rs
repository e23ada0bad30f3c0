use pybridge::{ForwardState, ResponseProcessingError, RESPONSE_CHANNEL_CAPACITY};
use pybridge::Annotated;
use tokio::sync::mpsc;

type Item = Result<u64, ResponseProcessingError>;

async fn forward(items: Vec<Item>, tx: mpsc::Sender<Annotated<u64>>) -> usize {
    let mut state = ForwardState::new();
    let mut pulled = 0;
    for item in items {
        pulled += 1;
        let step = state.on_item(item);
        let delivered = tx.send(step.response).await.is_ok();
        if !state.on_sent(delivered) {
            return pulled;
        }
    }
    state.on_exhausted();
    pulled
}

#[test]
fn channel_capacity_is_bounded() {
    assert_eq!(RESPONSE_CHANNEL_CAPACITY, 128);
    let (tx, mut rx) = mpsc::channel::<Annotated<u64>>(RESPONSE_CHANNEL_CAPACITY);
    let mut sent = 0u64;
    while tx.try_send(Annotated::from_data(sent)).is_ok() {
        sent += 1;
    }
    assert_eq!(sent, 128);
    for i in 0..128u64 {
        assert_eq!(rx.try_recv().unwrap().data(), Some(&i));
    }
    assert!(tx.try_send(Annotated::from_data(128)).is_ok());
}

#[test]
fn slow_consumer_receives_every_item_in_order() {
    let rt = tokio::runtime::Builder::new_multi_thread().worker_threads(2).build().unwrap();
    rt.block_on(async {
        let (tx, mut rx) = mpsc::channel::<Annotated<u64>>(RESPONSE_CHANNEL_CAPACITY);
        let items: Vec<Item> = (0..1000).map(Ok).collect();
        let producer = tokio::spawn(forward(items, tx));
        let mut got = Vec::new();
        while let Some(a) = rx.recv().await {
            if got.len() % 100 == 0 {
                tokio::task::yield_now().await;
            }
            got.push(*a.data().unwrap());
        }
        assert_eq!(got, (0..1000).collect::<Vec<u64>>());
        assert_eq!(producer.await.unwrap(), 1000);
    });
}

#[test]
fn dropped_consumer_ends_forwarding_task() {
    let rt = tokio::runtime::Builder::new_multi_thread().worker_threads(2).build().unwrap();
    rt.block_on(async {
        let (tx, mut rx) = mpsc::channel::<Annotated<u64>>(1);
        let items: Vec<Item> = (0..50).map(Ok).collect();
        let producer = tokio::spawn(forward(items, tx));
        let first = rx.recv().await.unwrap();
        assert_eq!(first.data(), Some(&0));
        drop(rx);
        let pulled = producer.await.unwrap();
        assert!(pulled <= 3);
    });
}

#[test]
fn concurrent_requests_keep_their_own_streams() {
    let rt = tokio::runtime::Builder::new_multi_thread().worker_threads(4).build().unwrap();
    rt.block_on(async {
        let mut handles = Vec::new();
        for req in 0..50u64 {
            handles.push(tokio::spawn(async move {
                let (tx, mut rx) = mpsc::channel::<Annotated<u64>>(RESPONSE_CHANNEL_CAPACITY);
                let mut items: Vec<Item> = (0..20).map(|i| Ok(req * 1000 + i)).collect();
                if req % 5 == 0 {
                    items[10] = Err(ResponseProcessingError::DeserializeError("shape".to_string()));
                }
                tokio::spawn(forward(items, tx));
                let mut got = Vec::new();
                while let Some(a) = rx.recv().await {
                    got.push(a);
                }
                (req, got)
            }));
        }
        for h in handles {
            let (req, got) = h.await.unwrap();
            if req % 5 == 0 {
                assert_eq!(got.len(), 11);
                assert!(got[10].is_error());
                for (i, a) in got[..10].iter().enumerate() {
                    assert_eq!(a.data(), Some(&(req * 1000 + i as u64)));
                }
            } else {
                assert_eq!(got.len(), 20);
                for (i, a) in got.iter().enumerate() {
                    assert_eq!(a.data(), Some(&(req * 1000 + i as u64)));
                }
            }
        }
    });
}
