# thermostat_config

The configuration and health service of a home-automation thermostat.

- `src/` is the verified library: configuration assembly (`config`), InfluxDB
  connection settings (`influxdb_pool`, `influxdb`), the health reports and
  their decisions (`health`), GraphQL and HTTP error types (`errors`), JSON
  string escaping and reading back (`json`) and the
  JSON bodies of error responses (`error_handler`).
- `app/` is the HTTP service around it: environment and `.env` loading, the
  PostgreSQL and InfluxDB pools, the actix-web handlers and the serialisable
  copies of the response types.
- `tests/` exercises the library on concrete values.
