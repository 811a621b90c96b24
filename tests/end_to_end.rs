use std::sync::Arc;

use datafusion::arrow::array::{Array, Int64Array, StringArray};
use datafusion::arrow::datatypes::{DataType, Field, Schema, SchemaRef};
use datafusion::arrow::record_batch::RecordBatch;
use datafusion::dataframe::DataFrame;
use datafusion::functions_aggregate::expr_fn::count;
use datafusion::prelude::{col, lit, SessionContext};
use javelin::gateway::accept_plan;
use javelin::registry::Javelin;
use javelin::service::ServiceError;
use javelin::catalog::query_for_table;
use javelin::streamer::{Frame, Pulled, ResultStreamer, StreamPhase};

fn orders_schema() -> SchemaRef {
    Arc::new(Schema::new(vec![
        Field::new("id", DataType::Int64, false),
        Field::new("item", DataType::Utf8, true),
    ]))
}

fn orders_context() -> SessionContext {
    let schema = orders_schema();
    let batch = RecordBatch::try_new(
        schema,
        vec![
            Arc::new(Int64Array::from(vec![1, 2, 3])),
            Arc::new(StringArray::from(vec!["a", "b", "c"])),
        ],
    )
    .unwrap();
    let ctx = SessionContext::new();
    ctx.register_batch("orders", batch).unwrap();
    ctx
}

/// Runs a planned query and relays its batches through the streamer.
async fn relay(df: DataFrame) -> (Vec<Frame<RecordBatch>>, StreamPhase) {
    let mut streamer = ResultStreamer::new();
    let mut frames = Vec::new();
    match df.collect().await {
        Ok(batches) => {
            for b in batches {
                frames.extend(streamer.on_pull(Pulled::Batch(b)));
            }
            frames.extend(streamer.on_pull(Pulled::End));
        }
        Err(e) => frames.extend(streamer.on_pull(Pulled::Failure(e.to_string()))),
    }
    (frames, streamer.phase())
}

async fn plan_table(ctx: &SessionContext, name: &str) -> Result<DataFrame, ServiceError> {
    accept_plan(ctx.table(name).await.map_err(|e| e.to_string()))
}

#[test]
fn orders_listing_and_count_end_to_end() {
    let rt = tokio::runtime::Runtime::new().unwrap();
    rt.block_on(async {
        let ctx = orders_context();
        let inferred = ctx.table("orders").await.unwrap().schema().inner().clone();
        let mut j = Javelin::new();
        j.register("orders".to_string(), "memory:orders".to_string(), inferred).unwrap();

        let listing = j.list_flights().unwrap();
        assert_eq!(listing.len(), 1);
        let entry = listing[0].as_ref().unwrap();
        assert_eq!(entry.descriptor_path, vec!["orders".to_string()]);
        assert_eq!(entry.schema.fields(), orders_schema().fields());
        let query = j.do_get(&entry.ticket).unwrap();
        assert_eq!(query, query_for_table("orders"));
        assert_eq!(query, "SELECT * FROM \"orders\"");

        // What the listed ticket selects: the whole table.
        let (frames, phase) = relay(plan_table(&ctx, "orders").await.unwrap()).await;
        assert_eq!(phase, StreamPhase::Completed);
        assert!(matches!(frames[0], Frame::SchemaHeader));
        let rows: usize = frames
            .iter()
            .map(|f| match f {
                Frame::Data(b) => {
                    assert_eq!(b.schema().fields(), entry.schema.fields());
                    b.num_rows()
                }
                _ => 0,
            })
            .sum();
        assert_eq!(rows, 3);

        assert_eq!(
            j.do_get(b"SELECT COUNT(*) FROM orders"),
            Ok("SELECT COUNT(*) FROM orders".to_string())
        );
        let counted = plan_table(&ctx, "orders")
            .await
            .unwrap()
            .aggregate(vec![], vec![count(lit(1))])
            .unwrap();
        let (frames, phase) = relay(counted).await;
        assert_eq!(phase, StreamPhase::Completed);
        assert_eq!(frames.len(), 2);
        assert!(matches!(frames[0], Frame::SchemaHeader));
        match &frames[1] {
            Frame::Data(b) => {
                assert_eq!(b.num_rows(), 1);
                assert_eq!(b.num_columns(), 1);
                let c = b.column(0).as_any().downcast_ref::<Int64Array>().unwrap();
                assert_eq!(c.value(0), 3);
            }
            _ => panic!("expected a data frame"),
        }
    });
}

#[test]
fn zero_row_query_completes_without_rows() {
    let rt = tokio::runtime::Runtime::new().unwrap();
    rt.block_on(async {
        let ctx = orders_context();
        let df = plan_table(&ctx, "orders")
            .await
            .unwrap()
            .filter(col("id").gt(lit(100i64)))
            .unwrap();
        let (frames, phase) = relay(df).await;
        assert_eq!(phase, StreamPhase::Completed);
        let mut rows = 0;
        for (i, f) in frames.iter().enumerate() {
            match f {
                Frame::SchemaHeader => assert_eq!(i, 0),
                Frame::Data(b) => rows += b.num_rows(),
                Frame::Error(e) => panic!("unexpected error {:?}", e),
            }
        }
        assert_eq!(rows, 0);
    });
}

#[test]
fn unknown_table_is_engine_rejected() {
    let rt = tokio::runtime::Runtime::new().unwrap();
    rt.block_on(async {
        let ctx = orders_context();
        match plan_table(&ctx, "missing").await {
            Err(ServiceError::EngineRejected(m)) => assert!(m.contains("missing")),
            Err(e) => panic!("expected an engine rejection, got {:?}", e),
            Ok(_) => panic!("expected an engine rejection"),
        }
        let j: Javelin<SchemaRef> = Javelin::new();
        assert!(matches!(j.do_get(&[0xff, 0xfe]), Err(ServiceError::MalformedTicket(_))));
    });
}
